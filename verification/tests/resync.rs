use camino::Utf8PathBuf;
use cargo_leptos::resync::{
    clean_dest, is_reserved_name, mirror, resync, CopyStep, Entry, Removal, ResyncPlan,
};
use std::collections::BTreeMap;

fn p(text: &str) -> Utf8PathBuf {
    Utf8PathBuf::from(text)
}

fn file(name: &str) -> Entry {
    Entry { name: name.to_string(), is_dir: false }
}

fn dir(name: &str) -> Entry {
    Entry { name: name.to_string(), is_dir: true }
}

fn listing(tree: &BTreeMap<String, (bool, String)>) -> Vec<Entry> {
    tree.iter()
        .map(|(name, (is_dir, _))| Entry { name: name.clone(), is_dir: *is_dir })
        .collect()
}

fn carry_out(
    plan: &ResyncPlan,
    src: &BTreeMap<String, (bool, String)>,
    dest: &mut BTreeMap<String, (bool, String)>,
) {
    for removal in plan.removals.iter() {
        dest.remove(&removal.name);
    }
    for copy in plan.copies.iter() {
        dest.insert(copy.name.clone(), src[&copy.name].clone());
    }
}

fn tree(entries: &[(&str, bool, &str)]) -> BTreeMap<String, (bool, String)> {
    entries
        .iter()
        .map(|(name, is_dir, content)| (name.to_string(), (*is_dir, content.to_string())))
        .collect()
}

#[test]
fn reserved_names_are_index_html_and_pkg() {
    assert!(is_reserved_name("index.html"));
    assert!(is_reserved_name("pkg"));
    assert!(!is_reserved_name("Index.html"));
    assert!(!is_reserved_name("pkg2"));
    assert!(!is_reserved_name(""));
}

#[test]
fn clean_dest_removes_all_but_the_reserved_entries() {
    let entries = vec![dir("img"), file("index.html"), dir("pkg"), file("favicon.ico")];
    assert_eq!(
        clean_dest(&p("/p/target/site"), &entries),
        vec![
            Removal { name: "img".to_string(), path: p("/p/target/site/img"), is_dir: true },
            Removal {
                name: "favicon.ico".to_string(),
                path: p("/p/target/site/favicon.ico"),
                is_dir: false,
            },
        ]
    );
}

#[test]
fn clean_dest_spares_reserved_names_of_either_kind() {
    let entries = vec![dir("index.html"), file("pkg")];
    assert!(clean_dest(&p("/p/target/site"), &entries).is_empty());
}

#[test]
fn clean_dest_of_an_empty_directory_removes_nothing() {
    assert!(clean_dest(&p("/p/target/site"), &Vec::new()).is_empty());
}

#[test]
fn mirror_copies_all_but_the_reserved_entries() {
    let entries = vec![file("index.html"), dir("img"), dir("pkg"), file("robots.txt")];
    assert_eq!(
        mirror(&p("/p/assets"), &p("/p/target/site"), &entries),
        vec![
            CopyStep {
                name: "img".to_string(),
                from: p("/p/assets/img"),
                to: p("/p/target/site/img"),
                is_dir: true,
            },
            CopyStep {
                name: "robots.txt".to_string(),
                from: p("/p/assets/robots.txt"),
                to: p("/p/target/site/robots.txt"),
                is_dir: false,
            },
        ]
    );
}

#[test]
fn resync_plans_removals_and_copies() {
    let plan = resync(
        &p("/p/assets"),
        &p("/p/target/site"),
        &vec![file("a.png")],
        &vec![file("b.png"), dir("pkg")],
    );
    assert_eq!(plan.removals.len(), 1);
    assert_eq!(plan.removals[0].path, p("/p/target/site/b.png"));
    assert_eq!(plan.copies.len(), 1);
    assert_eq!(plan.copies[0].from, p("/p/assets/a.png"));
    assert_eq!(plan.copies[0].to, p("/p/target/site/a.png"));
}

#[test]
fn a_resync_leaves_the_assets_beside_the_reserved_entries() {
    let src = tree(&[
        ("logo.png", false, "new logo"),
        ("img", true, "pictures"),
        ("index.html", false, "asset page"),
        ("pkg", true, "asset pkg"),
    ]);
    let mut dest = tree(&[
        ("logo.png", false, "old logo"),
        ("stale.txt", false, "stale"),
        ("index.html", false, "entry page"),
        ("pkg", true, "bundle"),
    ]);
    let plan = resync(&p("/p/assets"), &p("/p/target/site"), &listing(&src), &listing(&dest));
    carry_out(&plan, &src, &mut dest);
    assert_eq!(
        dest,
        tree(&[
            ("logo.png", false, "new logo"),
            ("img", true, "pictures"),
            ("index.html", false, "entry page"),
            ("pkg", true, "bundle"),
        ])
    );
}

#[test]
fn a_second_resync_changes_nothing() {
    let src = tree(&[("a", false, "1"), ("b", true, "2"), ("pkg", true, "3")]);
    let mut dest = tree(&[("x", false, "9"), ("index.html", false, "page"), ("a", true, "8")]);
    let first = resync(&p("/s"), &p("/d"), &listing(&src), &listing(&dest));
    carry_out(&first, &src, &mut dest);
    let after_first = dest.clone();
    let second = resync(&p("/s"), &p("/d"), &listing(&src), &listing(&dest));
    carry_out(&second, &src, &mut dest);
    assert_eq!(dest, after_first);
}

#[test]
fn no_plan_names_a_reserved_entry() {
    let src = vec![file("index.html"), dir("pkg"), file("a"), dir("index.html"), file("pkg")];
    let dest = vec![file("pkg"), dir("index.html"), file("b"), dir("pkg")];
    let plan = resync(&p("/s"), &p("/d"), &src, &dest);
    assert!(plan.removals.iter().all(|r| r.name != "index.html" && r.name != "pkg"));
    assert!(plan.copies.iter().all(|c| c.name != "index.html" && c.name != "pkg"));
    assert_eq!(plan.removals.len(), 1);
    assert_eq!(plan.copies.len(), 1);
}
