use fsnav::fs_path::AbsPath;

fn path(components: &[&str]) -> AbsPath {
    AbsPath::from_components(components.iter().map(|c| c.to_string()).collect())
}

#[test]
fn the_root_has_no_parent_and_no_name() {
    let root = AbsPath::root();
    assert_eq!(root.depth(), 0);
    assert!(root.parent().is_none());
    assert!(root.last_component().is_none());
}

#[test]
fn parent_drops_the_final_component() {
    let p = path(&["home", "user", "docs"]);
    assert_eq!(p.depth(), 3);
    assert_eq!(p.last_component().unwrap(), "docs");
    let parent = p.parent().unwrap();
    assert_eq!(parent.components(), &vec!["home".to_string(), "user".to_string()]);
    let grandparent = parent.parent().unwrap();
    assert_eq!(grandparent.components(), &vec!["home".to_string()]);
    assert!(grandparent.parent().unwrap().parent().is_none());
}

#[test]
fn same_path_compares_by_components() {
    let a = path(&["home", "user"]);
    let b = path(&["home", "user"]);
    let c = path(&["home", "other"]);
    let d = path(&["home"]);
    assert!(a.same_path(&b));
    assert!(!a.same_path(&c));
    assert!(!a.same_path(&d));
    assert!(a.same_path(&a.duplicate()));
}
