use sigma_serve::resolver::{
    classify, target_path, CanonicalPath, Outcome, Resolution, FALLBACK_PAGE,
};

fn path(parts: &[&str]) -> CanonicalPath {
    CanonicalPath { components: parts.iter().map(|part| part.as_bytes().to_vec()).collect() }
}

#[test]
fn root_path_maps_to_the_index_page() {
    assert_eq!(target_path("/", ".html"), "index.html");
    assert_eq!(target_path("/", ".txt"), "index.html");
    assert_eq!(target_path("/", ""), "index.html");
}

#[test]
fn other_paths_lose_one_slash_and_gain_the_suffix() {
    assert_eq!(target_path("/name", ".html"), "name.html");
    assert_eq!(target_path("/a/b", ".html"), "a/b.html");
    assert_eq!(target_path("/name", ""), "name");
    assert_eq!(target_path("/caf\u{e9}", ".htm"), "caf\u{e9}.htm");
}

#[test]
fn only_a_single_slash_is_stripped() {
    assert_eq!(target_path("//etc/passwd", ".html"), "/etc/passwd.html");
    assert_eq!(target_path("//", ".html"), "/.html");
}

#[test]
fn paths_without_a_leading_slash_are_kept() {
    assert_eq!(target_path("name", ".html"), "name.html");
    assert_eq!(target_path("", ".html"), ".html");
    assert_eq!(target_path("../x", ".html"), "../x.html");
}

#[test]
fn traversal_stays_in_the_target() {
    assert_eq!(target_path("/../../etc/passwd", ".html"), "../../etc/passwd.html");
}

#[test]
fn a_path_starts_with_itself() {
    let root = path(&["/", "srv", "www"]);
    assert!(root.starts_with(&root));
}

#[test]
fn a_descendant_starts_with_its_ancestors() {
    let file = path(&["/", "srv", "www", "a", "b.html"]);
    assert!(file.starts_with(&path(&["/", "srv", "www"])));
    assert!(file.starts_with(&path(&["/", "srv"])));
    assert!(file.starts_with(&path(&["/"])));
    assert!(file.starts_with(&path(&[])));
}

#[test]
fn an_ancestor_does_not_start_with_its_descendant() {
    assert!(!path(&["/", "srv"]).starts_with(&path(&["/", "srv", "www"])));
    assert!(!path(&[]).starts_with(&path(&["/"])));
}

#[test]
fn a_sibling_with_a_longer_name_is_outside() {
    let root = path(&["/", "root"]);
    assert!(!path(&["/", "root-evil"]).starts_with(&root));
    assert!(!path(&["/", "root-evil", "index.html"]).starts_with(&root));
    assert!(!path(&["/", "roo", "t"]).starts_with(&root));
    assert!(path(&["/", "root", "evil"]).starts_with(&root));
}

#[test]
fn components_are_compared_byte_for_byte() {
    let root = CanonicalPath { components: vec![b"/".to_vec(), vec![0xff, 0x61]] };
    let inside = CanonicalPath { components: vec![b"/".to_vec(), vec![0xff, 0x61], b"x".to_vec()] };
    let outside = CanonicalPath { components: vec![b"/".to_vec(), vec![0xfe, 0x61], b"x".to_vec()] };
    assert!(inside.starts_with(&root));
    assert!(!outside.starts_with(&root));
}

#[test]
fn a_path_within_the_root_is_found() {
    let root = path(&["/", "srv", "www"]);
    let file = path(&["/", "srv", "www", "index.html"]);
    assert_eq!(classify(Resolution::Canonical(file.clone()), &root), Outcome::Found(file));
    assert_eq!(classify(Resolution::Canonical(root.clone()), &root), Outcome::Found(root.clone()));
}

#[test]
fn a_path_outside_the_root_is_not_found() {
    let root = path(&["/", "srv", "www"]);
    assert_eq!(
        classify(Resolution::Canonical(path(&["/", "etc", "passwd.html"])), &root),
        Outcome::NotFound
    );
    assert_eq!(
        classify(Resolution::Canonical(path(&["/", "srv", "www-evil", "a.html"])), &root),
        Outcome::NotFound
    );
    assert_eq!(classify(Resolution::Canonical(path(&["/", "srv"])), &root), Outcome::NotFound);
}

#[test]
fn a_missing_path_is_not_found() {
    assert_eq!(classify(Resolution::Missing, &path(&["/", "srv", "www"])), Outcome::NotFound);
}

#[test]
fn a_fault_stays_a_fault() {
    assert_eq!(classify(Resolution::Fault, &path(&["/", "srv", "www"])), Outcome::Fault);
}

#[test]
fn the_fallback_page_has_a_fixed_name() {
    assert_eq!(FALLBACK_PAGE, "404.html");
}
