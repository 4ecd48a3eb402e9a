use camino::Utf8PathBuf;
use cargo_leptos::assets::{
    follow_up, is_listed, react, reload_message, reserved, update_asset, FollowUp, SyncAction,
    SyncReaction, DEST,
};
use cargo_leptos::bus::Msg;
use cargo_leptos::path::PathErrorKind;
use cargo_leptos::watch::Watched;

fn p(text: &str) -> Utf8PathBuf {
    Utf8PathBuf::from(text)
}

fn src() -> Utf8PathBuf {
    p("/p/assets")
}

fn dest() -> Utf8PathBuf {
    p("/p/target/site")
}

#[test]
fn the_staging_directory_is_target_site() {
    assert_eq!(DEST, "target/site");
}

#[test]
fn reserved_are_the_entry_page_and_the_bundle_directory() {
    assert_eq!(
        reserved(&src()),
        vec![p("/p/assets/index.html"), p("/p/assets/pkg")]
    );
}

#[test]
fn is_listed_compares_paths() {
    let list = reserved(&src());
    assert!(is_listed(&list, &p("/p/assets/pkg")));
    assert!(is_listed(&list, &p("/p/assets/pkg/")));
    assert!(!is_listed(&list, &p("/p/assets/pkg/app.js")));
    assert!(!is_listed(&list, &p("/p/assets")));
    assert!(!is_listed(&Vec::new(), &p("/p/assets")));
}

#[test]
fn a_created_entry_is_copied() {
    let action = update_asset(
        Watched::Create(p("/p/assets/img/logo.png")),
        &src(),
        &dest(),
        &reserved(&src()),
    );
    assert_eq!(
        action,
        Ok(SyncAction::Copy {
            from: p("/p/assets/img/logo.png"),
            to: p("/p/target/site/img/logo.png"),
        })
    );
}

#[test]
fn a_written_file_is_copied_as_a_file() {
    let action = update_asset(
        Watched::Write(p("/p/assets/favicon.ico")),
        &src(),
        &dest(),
        &reserved(&src()),
    );
    assert_eq!(
        action,
        Ok(SyncAction::CopyFile {
            from: p("/p/assets/favicon.ico"),
            to: p("/p/target/site/favicon.ico"),
        })
    );
}

#[test]
fn a_removed_entry_is_removed_from_the_staging_directory() {
    let action = update_asset(
        Watched::Remove(p("/p/assets/old")),
        &src(),
        &dest(),
        &reserved(&src()),
    );
    assert_eq!(action, Ok(SyncAction::Remove(p("/p/target/site/old"))));
}

#[test]
fn a_renamed_entry_is_renamed_in_the_staging_directory() {
    let action = update_asset(
        Watched::Rename(p("/p/assets/logo.png"), p("/p/assets/brand.png")),
        &src(),
        &dest(),
        &reserved(&src()),
    );
    assert_eq!(
        action,
        Ok(SyncAction::Rename {
            from: p("/p/target/site/logo.png"),
            to: p("/p/target/site/brand.png"),
        })
    );
}

#[test]
fn a_rescan_asks_for_a_full_resync() {
    let action = update_asset(Watched::Rescan, &src(), &dest(), &reserved(&src()));
    assert_eq!(action, Ok(SyncAction::Resync));
}

#[test]
fn changes_to_reserved_paths_are_skipped() {
    let list = reserved(&src());
    for path in ["/p/assets/index.html", "/p/assets/pkg"] {
        assert_eq!(
            update_asset(Watched::Create(p(path)), &src(), &dest(), &list),
            Ok(SyncAction::Skip(p(path)))
        );
        assert_eq!(
            update_asset(Watched::Write(p(path)), &src(), &dest(), &list),
            Ok(SyncAction::Skip(p(path)))
        );
        assert_eq!(
            update_asset(Watched::Remove(p(path)), &src(), &dest(), &list),
            Ok(SyncAction::Skip(p(path)))
        );
        assert_eq!(
            update_asset(Watched::Rename(p(path), p("/p/assets/x")), &src(), &dest(), &list),
            Ok(SyncAction::Skip(p(path)))
        );
        assert_eq!(
            update_asset(Watched::Rename(p("/p/assets/x"), p(path)), &src(), &dest(), &list),
            Ok(SyncAction::Skip(p(path)))
        );
    }
}

#[test]
fn a_reserved_path_is_skipped_even_outside_the_assets_root() {
    let list = vec![p("/elsewhere/keep")];
    assert_eq!(
        update_asset(Watched::Remove(p("/elsewhere/keep")), &src(), &dest(), &list),
        Ok(SyncAction::Skip(p("/elsewhere/keep")))
    );
}

#[test]
fn a_path_outside_the_assets_root_cannot_be_placed() {
    let error = update_asset(
        Watched::Write(p("/p/src/main.rs")),
        &src(),
        &dest(),
        &reserved(&src()),
    )
    .unwrap_err();
    assert_eq!(error.kind, PathErrorKind::BaseMismatch);
    let error = update_asset(Watched::Remove(p("/p")), &src(), &dest(), &reserved(&src()))
        .unwrap_err();
    assert_eq!(error.kind, PathErrorKind::BaseLonger);
    let error = update_asset(
        Watched::Rename(p("/p/assets/a"), p("/p/src/a")),
        &src(),
        &dest(),
        &reserved(&src()),
    )
    .unwrap_err();
    assert_eq!(error.kind, PathErrorKind::BaseMismatch);
    assert_eq!(error.path, p("/p/src/a"));
}

#[test]
fn the_synchronizer_acts_on_asset_changes_only() {
    let list = reserved(&src());
    assert_eq!(
        react(
            Msg::AssetsChanged(Watched::Remove(p("/p/assets/old"))),
            &src(),
            &dest(),
            &list
        ),
        SyncReaction::Apply(SyncAction::Remove(p("/p/target/site/old")))
    );
    assert_eq!(react(Msg::ShutDown, &src(), &dest(), &list), SyncReaction::Stop);
    assert_eq!(react(Msg::SrcChanged, &src(), &dest(), &list), SyncReaction::Ignore);
    assert_eq!(react(Msg::StyleChanged, &src(), &dest(), &list), SyncReaction::Ignore);
    assert_eq!(
        react(Msg::Reload("reload".to_string()), &src(), &dest(), &list),
        SyncReaction::Ignore
    );
}

#[test]
fn a_change_that_cannot_be_placed_asks_for_recovery() {
    let list = reserved(&src());
    match react(
        Msg::AssetsChanged(Watched::Write(p("/q/x"))),
        &src(),
        &dest(),
        &list,
    ) {
        SyncReaction::Recover(error) => {
            assert_eq!(error.kind, PathErrorKind::BaseMismatch);
            assert_eq!(error.path, p("/q/x"));
            assert_eq!(error.base, src());
        }
        other => panic!("unexpected reaction {other:?}"),
    }
}

#[test]
fn a_step_that_succeeded_is_followed_by_one_reload() {
    let steps = [
        SyncAction::Copy { from: p("/a"), to: p("/b") },
        SyncAction::CopyFile { from: p("/a"), to: p("/b") },
        SyncAction::Remove(p("/b")),
        SyncAction::Rename { from: p("/a"), to: p("/b") },
        SyncAction::Resync,
    ];
    for step in steps.iter() {
        assert_eq!(follow_up(step, true), FollowUp::Reload);
    }
}

#[test]
fn a_step_that_failed_falls_back_to_a_full_resync() {
    let steps = [
        SyncAction::Copy { from: p("/a"), to: p("/b") },
        SyncAction::CopyFile { from: p("/a"), to: p("/b") },
        SyncAction::Remove(p("/b")),
        SyncAction::Rename { from: p("/a"), to: p("/b") },
    ];
    for step in steps.iter() {
        assert_eq!(follow_up(step, false), FollowUp::Fallback);
    }
    assert_eq!(follow_up(&SyncAction::Resync, false), FollowUp::GiveUp);
}

#[test]
fn a_skipped_change_is_followed_by_nothing() {
    assert_eq!(follow_up(&SyncAction::Skip(p("/a")), true), FollowUp::Nothing);
    assert_eq!(follow_up(&SyncAction::Skip(p("/a")), false), FollowUp::Nothing);
}

#[test]
fn the_reload_message_gives_reload_as_its_reason() {
    assert_eq!(reload_message(), Msg::Reload("reload".to_string()));
}
