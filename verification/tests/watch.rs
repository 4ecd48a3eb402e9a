use camino::Utf8PathBuf;
use cargo_leptos::bus::Msg;
use cargo_leptos::watch::{
    convert, handle, is_excluded, is_style_extension, route, route_extension, watch_roots,
    ClassifyError, RawEvent, Route, Watched,
};

fn p(text: &str) -> Utf8PathBuf {
    Utf8PathBuf::from(text)
}

fn b(text: &str) -> Vec<u8> {
    text.as_bytes().to_vec()
}

#[test]
fn a_permission_change_is_no_change() {
    assert_eq!(Watched::try_new(RawEvent::Chmod(b("/p/src/main.rs"))), Ok(None));
}

#[test]
fn a_permission_change_is_dropped_whatever_its_path() {
    assert_eq!(Watched::try_new(RawEvent::Chmod(vec![0xff, 0xfe])), Ok(None));
    assert_eq!(Watched::try_new(RawEvent::Chmod(b("relative"))), Ok(None));
}

#[test]
fn notices_are_no_changes() {
    assert_eq!(Watched::try_new(RawEvent::NoticeWrite(b("/p/src/main.rs"))), Ok(None));
    assert_eq!(Watched::try_new(RawEvent::NoticeRemove(b("/p/src/main.rs"))), Ok(None));
}

#[test]
fn structural_changes_are_kept() {
    assert_eq!(
        Watched::try_new(RawEvent::Create(b("/p/src/a.rs"))),
        Ok(Some(Watched::Create(p("/p/src/a.rs"))))
    );
    assert_eq!(
        Watched::try_new(RawEvent::Remove(b("/p/src/a.rs"))),
        Ok(Some(Watched::Remove(p("/p/src/a.rs"))))
    );
    assert_eq!(
        Watched::try_new(RawEvent::Write(b("/p/src/a.rs"))),
        Ok(Some(Watched::Write(p("/p/src/a.rs"))))
    );
    assert_eq!(
        Watched::try_new(RawEvent::Rename(b("/p/src/a.rs"), b("/p/src/b.rs"))),
        Ok(Some(Watched::Rename(p("/p/src/a.rs"), p("/p/src/b.rs"))))
    );
}

#[test]
fn lost_notifications_ask_for_a_rescan() {
    assert_eq!(Watched::try_new(RawEvent::Rescan), Ok(Some(Watched::Rescan)));
}

#[test]
fn a_failure_of_the_watcher_asks_for_a_rescan() {
    assert_eq!(Watched::try_new(RawEvent::Error(None)), Ok(Some(Watched::Rescan)));
    assert_eq!(
        Watched::try_new(RawEvent::Error(Some(b("/p/src")))),
        Ok(Some(Watched::Rescan))
    );
}

#[test]
fn a_path_that_is_not_utf8_is_refused() {
    let bytes = vec![b'/', b'p', 0xff, 0xfe];
    assert_eq!(
        Watched::try_new(RawEvent::Create(bytes.clone())),
        Err(ClassifyError::NotUtf8(bytes.clone()))
    );
    assert_eq!(convert(bytes.clone()), Err(ClassifyError::NotUtf8(bytes)));
}

#[test]
fn a_relative_path_is_refused() {
    assert_eq!(
        Watched::try_new(RawEvent::Write(b("src/main.rs"))),
        Err(ClassifyError::NotAbsolute(p("src/main.rs")))
    );
}

#[test]
fn a_rename_is_refused_for_its_first_bad_path() {
    assert_eq!(
        Watched::try_new(RawEvent::Rename(b("a.rs"), vec![0xff])),
        Err(ClassifyError::NotAbsolute(p("a.rs")))
    );
    assert_eq!(
        Watched::try_new(RawEvent::Rename(b("/p/a.rs"), vec![0xff])),
        Err(ClassifyError::NotUtf8(vec![0xff]))
    );
}

#[test]
fn convert_reads_multibyte_text() {
    assert_eq!(convert("/p/süß/ä.rs".as_bytes().to_vec()), Ok(p("/p/süß/ä.rs")));
}

#[test]
fn path_is_the_old_path_of_a_rename() {
    let renamed = Watched::Rename(p("/p/a.rs"), p("/p/b.css"));
    assert_eq!(renamed.path(), Some(&p("/p/a.rs")));
    assert_eq!(Watched::Rescan.path(), None);
    assert_eq!(Watched::Create(p("/p/a.rs")).path(), Some(&p("/p/a.rs")));
}

#[test]
fn path_ext_is_the_extension_of_the_file() {
    assert_eq!(Watched::Write(p("/p/src/main.rs")).path_ext(), Some("rs"));
    assert_eq!(Watched::Write(p("/p/style/main.SCSS")).path_ext(), Some("SCSS"));
    assert_eq!(Watched::Write(p("/p/archive.tar.gz")).path_ext(), Some("gz"));
    assert_eq!(Watched::Write(p("/p/Makefile")).path_ext(), None);
    assert_eq!(Watched::Write(p("/p/.gitignore")).path_ext(), None);
    assert_eq!(Watched::Rename(p("/p/a.rs"), p("/p/b.css")).path_ext(), Some("rs"));
    assert_eq!(Watched::Rescan.path_ext(), None);
}

#[test]
fn path_starts_with_looks_at_both_paths_of_a_rename() {
    let renamed = Watched::Rename(p("/p/src/a.png"), p("/p/assets/a.png"));
    assert!(renamed.path_starts_with(&p("/p/assets")));
    assert!(renamed.path_starts_with(&p("/p/src")));
    assert!(!renamed.path_starts_with(&p("/p/style")));
    assert!(!Watched::Rescan.path_starts_with(&p("/")));
    assert!(Watched::Remove(p("/p/assets/x")).path_starts_with(&p("/p/assets")));
    assert!(!Watched::Remove(p("/p/assets2/x")).path_starts_with(&p("/p/assets")));
}

#[test]
fn describe_names_the_change_and_its_paths() {
    assert_eq!(Watched::Create(p("/p/a.rs")).describe(), "create \"/p/a.rs\"");
    assert_eq!(Watched::Remove(p("/p/a.rs")).describe(), "remove \"/p/a.rs\"");
    assert_eq!(Watched::Write(p("/p/a.rs")).describe(), "write \"/p/a.rs\"");
    assert_eq!(
        Watched::Rename(p("/p/a.rs"), p("/p/b.rs")).describe(),
        "rename \"/p/a.rs\" -> \"/p/b.rs\""
    );
    assert_eq!(Watched::Rescan.describe(), "rescan");
}

#[test]
fn duplicate_gives_an_equal_change() {
    let change = Watched::Rename(p("/p/a.rs"), p("/p/b.rs"));
    assert_eq!(change.duplicate(), change);
}

#[test]
fn style_extensions_are_scss_sass_and_css() {
    assert!(is_style_extension("scss"));
    assert!(is_style_extension("sass"));
    assert!(is_style_extension("css"));
    assert!(!is_style_extension("less"));
    assert!(!is_style_extension("SCSS"));
    assert!(!is_style_extension(""));
}

#[test]
fn extensions_route_source_and_style() {
    assert_eq!(route_extension("rs"), Route::Source);
    assert_eq!(route_extension("RS"), Route::Nowhere);
    assert_eq!(route_extension("scss"), Route::Style);
    assert_eq!(route_extension("SCSS"), Route::Style);
    assert_eq!(route_extension("Sass"), Route::Style);
    assert_eq!(route_extension("CSS"), Route::Style);
    assert_eq!(route_extension("png"), Route::Nowhere);
}

#[test]
fn exclusion_covers_what_lies_under_an_excluded_path() {
    let exclude = vec![p("/p/target"), p("/p/.git")];
    assert!(is_excluded(&exclude, &p("/p/target")));
    assert!(is_excluded(&exclude, &p("/p/target/site/pkg/app.js")));
    assert!(is_excluded(&exclude, &p("/p/.git/HEAD")));
    assert!(!is_excluded(&exclude, &p("/p/targets/x")));
    assert!(!is_excluded(&exclude, &p("/p/src/main.rs")));
    assert!(!is_excluded(&Vec::new(), &p("/p/src/main.rs")));
}

#[test]
fn an_excluded_change_goes_nowhere() {
    let exclude = vec![p("/p/src/generated")];
    let change = Watched::Write(p("/p/src/generated/api.rs"));
    assert_eq!(route(&change, &exclude, &None), Route::Nowhere);
    assert_eq!(handle(change, &exclude, &None), None);
}

#[test]
fn exclusion_comes_before_the_assets_root() {
    let exclude = vec![p("/p/assets/tmp")];
    let change = Watched::Write(p("/p/assets/tmp/x.png"));
    assert_eq!(handle(change, &exclude, &Some(p("/p/assets"))), None);
}

#[test]
fn the_assets_root_comes_before_the_extension() {
    let assets = Some(p("/p/assets"));
    let change = Watched::Write(p("/p/assets/theme.css"));
    assert_eq!(route(&change, &Vec::new(), &assets), Route::Assets);
    assert_eq!(
        handle(change.clone(), &Vec::new(), &assets),
        Some(Msg::AssetsChanged(change))
    );
    let source = Watched::Create(p("/p/assets/gen.rs"));
    assert_eq!(route(&source, &Vec::new(), &assets), Route::Assets);
}

#[test]
fn a_rename_into_the_assets_root_is_an_asset_change() {
    let assets = Some(p("/p/assets"));
    let change = Watched::Rename(p("/p/src/logo.rs"), p("/p/assets/logo.rs"));
    assert_eq!(
        handle(change.clone(), &Vec::new(), &assets),
        Some(Msg::AssetsChanged(change))
    );
}

#[test]
fn source_and_style_changes_are_told_apart() {
    let assets = Some(p("/p/assets"));
    assert_eq!(
        handle(Watched::Write(p("/p/src/main.rs")), &Vec::new(), &assets),
        Some(Msg::SrcChanged)
    );
    assert_eq!(
        handle(Watched::Write(p("/p/style/main.scss")), &Vec::new(), &assets),
        Some(Msg::StyleChanged)
    );
    assert_eq!(
        handle(Watched::Write(p("/p/style/MAIN.Css")), &Vec::new(), &None),
        Some(Msg::StyleChanged)
    );
    assert_eq!(
        handle(Watched::Remove(p("/p/style/old.sass")), &Vec::new(), &None),
        Some(Msg::StyleChanged)
    );
}

#[test]
fn other_files_are_dropped() {
    assert_eq!(handle(Watched::Write(p("/p/README.md")), &Vec::new(), &None), None);
    assert_eq!(handle(Watched::Write(p("/p/src/Makefile")), &Vec::new(), &None), None);
    assert_eq!(handle(Watched::Write(p("/p/src/main.RS")), &Vec::new(), &None), None);
}

#[test]
fn a_rescan_is_routed_nowhere() {
    assert_eq!(handle(Watched::Rescan, &Vec::new(), &Some(p("/p/assets"))), None);
    assert_eq!(route(&Watched::Rescan, &vec![p("/")], &None), Route::Nowhere);
}

#[test]
fn a_rename_is_routed_by_its_old_path() {
    assert_eq!(
        handle(Watched::Rename(p("/p/a.rs"), p("/p/a.txt")), &Vec::new(), &None),
        Some(Msg::SrcChanged)
    );
    assert_eq!(
        handle(Watched::Rename(p("/p/a.txt"), p("/p/a.rs")), &Vec::new(), &None),
        None
    );
}

#[test]
fn watch_roots_are_reduced() {
    assert_eq!(
        watch_roots(p("/p/src"), Some(p("/p/style")), Some(p("/p/assets"))),
        vec![p("/p/src"), p("/p/style"), p("/p/assets")]
    );
    assert_eq!(
        watch_roots(p("/p/src"), Some(p("/p/src/style")), Some(p("/p/src/assets"))),
        vec![p("/p/src")]
    );
    assert_eq!(watch_roots(p("/p/src"), None, None), vec![p("/p/src")]);
    assert_eq!(
        watch_roots(p("/p/src"), None, Some(p("/p"))),
        vec![p("/p")]
    );
}

#[test]
fn an_assets_root_above_source_and_style_is_watched_alone() {
    assert_eq!(
        watch_roots(p("/p/src"), Some(p("/p/style")), Some(p("/p"))),
        vec![p("/p")]
    );
    assert_eq!(
        watch_roots(p("/p/app/src"), Some(p("/p/app/style")), Some(p("/p/app"))),
        vec![p("/p/app")]
    );
}
