//! The WebAssembly stage: where its files lie and what its script is made
//! of.

use crate::path::{components, extended, join, joined, parsed, path_from, with_extension};
use crate::text::{join_texts, separated, texts};
use camino::Utf8PathBuf;
use vstd::prelude::*;

verus! {

/// The module that browsers load.
pub const WASM_FILE: &'static str = "target/site/pkg/app.wasm";

/// The module as it is before optimization.
pub const RAW_WASM_FILE: &'static str = "target/site/pkg/app.no-optimisation.wasm";

/// The script that loads the module.
pub const JS_FILE: &'static str = "target/site/pkg/app.js";

/// The name of the directory that the compiler writes to.
pub open spec fn build_dir_text(release: bool) -> Seq<char> {
    if release {
        "release"@
    } else {
        "debug"@
    }
}

/// The module that the compiler leaves for the browser package:
/// `wasm32-unknown-unknown/<release or debug>/<name>.wasm` under the target
/// directory.
pub fn compiled_module(target_directory: &Utf8PathBuf, lib_crate_name: &str, release: bool) -> (r:
    Utf8PathBuf)
    ensures
        components(r) == extended(
            joined(
                joined(
                    joined(components(*target_directory), parsed("wasm32-unknown-unknown"@)),
                    parsed(build_dir_text(release)),
                ),
                parsed(lib_crate_name@),
            ),
            "wasm"@,
        ),
{
    let dir = if release {
        "release"
    } else {
        "debug"
    };
    proof {
        reveal_strlit("wasm");
    }
    with_extension(
        &join(
            &join(&join(target_directory, &path_from("wasm32-unknown-unknown")), &path_from(dir)),
            &path_from(lib_crate_name),
        ),
        "wasm",
    )
}

/// Where the bound module is written: for a release to the file that is
/// then optimized, else straight to the file that browsers load.
pub fn emit_file(release: bool) -> (r: &'static str)
    ensures
        r@ == if release {
            RAW_WASM_FILE@
        } else {
            WASM_FILE@
        },
{
    if release {
        RAW_WASM_FILE
    } else {
        WASM_FILE
    }
}

/// The arguments with which the optimizer turns `src` into `dest`,
/// optimizing for size.
pub fn optimize_args(src: &str, dest: &str) -> (r: Vec<String>)
    ensures
        r@.len() == 4,
        r@[0]@ == src@,
        r@[1]@ == "-Os"@,
        r@[2]@ == "-o"@,
        r@[3]@ == dest@,
{
    let mut args: Vec<String> = Vec::new();
    args.push(String::from_str(src));
    args.push(String::from_str("-Os"));
    args.push(String::from_str("-o"));
    args.push(String::from_str(dest));
    args
}

/// The texts one after the other, with a line break between each two.
pub open spec fn lines(parts: Seq<Seq<char>>) -> Seq<char> {
    separated(parts, "\n"@)
}

/// Each group of snippets as one text, its snippets line by line.
pub open spec fn group_texts(groups: Seq<Vec<String>>) -> Seq<Seq<char>> {
    groups.map_values(|g: Vec<String>| lines(texts(g@)))
}

/// The script that loads the module: the snippets, group by group and line
/// by line, then the local modules line by line, then the glue code.
pub open spec fn script_text(
    snippets: Seq<Vec<String>>,
    modules: Seq<String>,
    glue: Seq<char>,
) -> Seq<char> {
    lines(group_texts(snippets)) + lines(texts(modules)) + glue
}

/// The texts one after the other, with a line break between each two.
pub fn join_lines(parts: &Vec<String>) -> (r: String)
    ensures
        r@ == lines(texts(parts@)),
{
    join_texts(parts, "\n")
}

/// The script that loads the module, put together from what the binding
/// generator hands out.
pub fn bundle_js(snippets: &Vec<Vec<String>>, modules: &Vec<String>, glue: &str) -> (r: String)
    ensures
        r@ == script_text(snippets@, modules@, glue@),
{
    let ghost all = group_texts(snippets@);
    let mut groups: Vec<String> = Vec::new();
    let mut i: usize = 0;
    while i < snippets.len()
        invariant
            0 <= i <= snippets.len(),
            all == group_texts(snippets@),
            groups@.len() == i,
            texts(groups@) == all.take(i as int),
        decreases snippets.len() - i,
    {
        let ghost before = groups@;
        let group = join_lines(&snippets[i]);
        groups.push(group);
        proof {
            assert(all[i as int] == lines(texts(snippets@[i as int]@)));
            assert forall|j: int| 0 <= j < i + 1 implies texts(groups@)[j] == all.take(
                i + 1,
            )[j] by {
                if j < i {
                    assert(groups@[j] == before[j]);
                    assert(texts(before)[j] == all.take(i as int)[j]);
                }
            }
            assert(texts(groups@) =~= all.take(i + 1));
        }
        i += 1;
    }
    proof {
        assert(all.take(snippets.len() as int) =~= all);
    }
    let mut out = join_lines(&groups);
    out.append(join_lines(modules).as_str());
    out.append(glue);
    out
}

} // verus!
