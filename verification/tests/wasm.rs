use camino::Utf8PathBuf;
use cargo_leptos::text::{copy_texts, decimal_text, wrap_text};
use cargo_leptos::wasm::{
    bundle_js, compiled_module, emit_file, join_lines, optimize_args, JS_FILE, RAW_WASM_FILE,
    WASM_FILE,
};

fn s(text: &str) -> String {
    text.to_string()
}

#[test]
fn the_files_of_the_bundle_lie_in_the_pkg_directory() {
    assert_eq!(WASM_FILE, "target/site/pkg/app.wasm");
    assert_eq!(RAW_WASM_FILE, "target/site/pkg/app.no-optimisation.wasm");
    assert_eq!(JS_FILE, "target/site/pkg/app.js");
}

#[test]
fn the_compiled_module_lies_under_the_wasm_target() {
    assert_eq!(
        compiled_module(&Utf8PathBuf::from("/ws/target"), "my_front", false),
        Utf8PathBuf::from("/ws/target/wasm32-unknown-unknown/debug/my_front.wasm")
    );
    assert_eq!(
        compiled_module(&Utf8PathBuf::from("target"), "my_front", true),
        Utf8PathBuf::from("target/wasm32-unknown-unknown/release/my_front.wasm")
    );
}

#[test]
fn a_dotted_crate_name_loses_what_follows_its_last_dot() {
    assert_eq!(
        compiled_module(&Utf8PathBuf::from("target"), "front.v2", false),
        Utf8PathBuf::from("target/wasm32-unknown-unknown/debug/front.wasm")
    );
}

#[test]
fn a_release_is_emitted_for_the_optimizer() {
    assert_eq!(emit_file(true), RAW_WASM_FILE);
    assert_eq!(emit_file(false), WASM_FILE);
}

#[test]
fn the_optimizer_is_told_to_optimize_for_size() {
    assert_eq!(
        optimize_args(RAW_WASM_FILE, WASM_FILE),
        vec![
            s("target/site/pkg/app.no-optimisation.wasm"),
            s("-Os"),
            s("-o"),
            s("target/site/pkg/app.wasm"),
        ]
    );
}

#[test]
fn lines_are_joined_with_line_breaks_between() {
    assert_eq!(join_lines(&Vec::new()), "");
    assert_eq!(join_lines(&vec![s("a")]), "a");
    assert_eq!(join_lines(&vec![s("a"), s("b"), s("c")]), "a\nb\nc");
    assert_eq!(join_lines(&vec![s(""), s("b"), s("")]), "\nb\n");
}

#[test]
fn the_script_is_snippets_then_modules_then_glue() {
    let snippets = vec![vec![s("s1"), s("s2")], vec![s("s3")]];
    let modules = vec![s("m1"), s("m2")];
    assert_eq!(bundle_js(&snippets, &modules, "glue();"), "s1\ns2\ns3m1\nm2glue();");
    assert_eq!(bundle_js(&Vec::new(), &Vec::new(), "glue();"), "glue();");
    assert_eq!(bundle_js(&vec![Vec::new(), vec![s("x")]], &Vec::new(), ""), "\nx");
}

#[test]
fn numbers_are_written_in_decimal() {
    assert_eq!(decimal_text(0), "0");
    assert_eq!(decimal_text(7), "7");
    assert_eq!(decimal_text(10), "10");
    assert_eq!(decimal_text(3001), "3001");
    assert_eq!(decimal_text(65535), "65535");
}

#[test]
fn texts_are_wrapped_and_copied() {
    assert_eq!(wrap_text("<", "x", ">"), "<x>");
    assert_eq!(wrap_text("", "", ""), "");
    assert_eq!(copy_texts(&vec![s("a"), s("b")]), vec![s("a"), s("b")]);
    assert_eq!(copy_texts(&Vec::new()), Vec::<String>::new());
}
