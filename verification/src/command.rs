//! The command lines with which cargo is run for the two packages of a
//! project.

use crate::text::{join_texts, pair_text, separated, texts};
use vstd::prelude::*;

verus! {

/// The directory that cargo builds the server package into.
pub const SERVER_TARGET_DIR: &'static str = "target/server";

/// The directory that cargo builds the browser package into.
pub const FRONT_TARGET_DIR: &'static str = "target/front";

/// What follows the choice of package and target on both command lines:
/// whether the default features are left out, which features are asked
/// for, and whether the build is optimized.
pub open spec fn build_flags(
    default_features: bool,
    features: Seq<Seq<char>>,
    release: bool,
) -> Seq<Seq<char>> {
    (if default_features {
        seq![]
    } else {
        seq!["--no-default-features"@]
    }) + (if features.len() > 0 {
        seq!["--features="@ + separated(features, ","@)]
    } else {
        seq![]
    }) + (if release {
        seq!["--release"@]
    } else {
        seq![]
    })
}

/// The arguments of cargo for the server package: the action, the package,
/// its bin target and the target directory, then the build flags.
pub open spec fn server_line(
    action: Seq<char>,
    package: Seq<char>,
    target: Seq<char>,
    default_features: bool,
    features: Seq<Seq<char>>,
    release: bool,
) -> Seq<Seq<char>> {
    seq![
        action,
        "--package="@ + package,
        "--bin="@ + target,
        "--target-dir="@ + SERVER_TARGET_DIR@,
    ] + build_flags(default_features, features, release)
}

/// The arguments of cargo for the browser package: the action, the package,
/// its library and the target directory, then the WebAssembly target where
/// the package is built for the browser, then the build flags.
pub open spec fn front_line(
    action: Seq<char>,
    package: Seq<char>,
    wasm: bool,
    default_features: bool,
    features: Seq<Seq<char>>,
    release: bool,
) -> Seq<Seq<char>> {
    seq![
        action,
        "--package="@ + package,
        "--lib"@,
        "--target-dir="@ + FRONT_TARGET_DIR@,
    ] + (if wasm {
        seq!["--target=wasm32-unknown-unknown"@]
    } else {
        seq![]
    }) + build_flags(default_features, features, release)
}

fn push_flags(args: &mut Vec<String>, default_features: bool, features: &Vec<String>, release: bool)
    ensures
        texts(final(args)@) == texts(old(args)@) + build_flags(
            default_features,
            texts(features@),
            release,
        ),
{
    if !default_features {
        args.push(String::from_str("--no-default-features"));
    }
    if features.len() > 0 {
        args.push(pair_text("--features=", join_texts(features, ",").as_str()));
    }
    if release {
        args.push(String::from_str("--release"));
    }
    proof {
        assert(texts(args@) =~= texts(old(args)@) + build_flags(
            default_features,
            texts(features@),
            release,
        ));
    }
}

/// The arguments with which cargo is run for the server package.
pub fn server_args(
    action: &str,
    package: &str,
    target: &str,
    default_features: bool,
    features: &Vec<String>,
    release: bool,
) -> (r: Vec<String>)
    ensures
        texts(r@) == server_line(
            action@,
            package@,
            target@,
            default_features,
            texts(features@),
            release,
        ),
{
    let mut args: Vec<String> = Vec::new();
    args.push(String::from_str(action));
    args.push(pair_text("--package=", package));
    args.push(pair_text("--bin=", target));
    args.push(pair_text("--target-dir=", SERVER_TARGET_DIR));
    proof {
        assert(texts(args@) =~= seq![
            action@,
            "--package="@ + package@,
            "--bin="@ + target@,
            "--target-dir="@ + SERVER_TARGET_DIR@,
        ]);
    }
    push_flags(&mut args, default_features, features, release);
    args
}

/// The arguments with which cargo is run for the browser package.
pub fn front_args(
    action: &str,
    package: &str,
    wasm: bool,
    default_features: bool,
    features: &Vec<String>,
    release: bool,
) -> (r: Vec<String>)
    ensures
        texts(r@) == front_line(
            action@,
            package@,
            wasm,
            default_features,
            texts(features@),
            release,
        ),
{
    let mut args: Vec<String> = Vec::new();
    args.push(String::from_str(action));
    args.push(pair_text("--package=", package));
    args.push(String::from_str("--lib"));
    args.push(pair_text("--target-dir=", FRONT_TARGET_DIR));
    if wasm {
        args.push(String::from_str("--target=wasm32-unknown-unknown"));
    }
    proof {
        assert(texts(args@) =~= seq![
            action@,
            "--package="@ + package@,
            "--lib"@,
            "--target-dir="@ + FRONT_TARGET_DIR@,
        ] + (if wasm {
            seq!["--target=wasm32-unknown-unknown"@]
        } else {
            seq![]
        }));
    }
    push_flags(&mut args, default_features, features, release);
    args
}

} // verus!
