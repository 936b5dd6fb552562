use fm::{File, FileType, Permissions, WorkingDir};

fn entry(name: &str, dir: &str) -> File {
    File {
        name: String::from(name),
        ftype: FileType::File,
        perms: Permissions::from(0o644),
        path: format!("{}/{}", dir, name),
        size: 0,
        is_selected: false,
    }
}

fn listing_names(wd: &WorkingDir) -> Vec<String> {
    wd.files().iter().map(|f| f.name.clone()).collect()
}

#[test]
fn new_sorts_entries() {
    let wd = WorkingDir::new(
        String::from("/d"),
        vec![entry("zeta", "/d"), entry(".alpha", "/d"), entry("beta", "/d")],
    );
    assert_eq!(listing_names(&wd), vec![".alpha", "beta", "zeta"]);
    assert_eq!(wd.len(), 3);
    assert!(!wd.is_empty());
}

#[test]
fn dotted_and_plain_names_sort_adjacent() {
    let wd = WorkingDir::new(
        String::from("/d"),
        vec![entry("b", "/d"), entry(".bashrc", "/d"), entry("bashrc", "/d"), entry("a", "/d")],
    );
    let names = listing_names(&wd);
    assert_eq!(names[0], "a");
    assert_eq!(names[1], "b");
    // ".bashrc" and "bashrc" share the sort key "bashrc" and stand together
    assert!(names[2..4].contains(&String::from(".bashrc")));
    assert!(names[2..4].contains(&String::from("bashrc")));
}

#[test]
fn update_replaces_and_sorts() {
    let mut wd = WorkingDir::new(String::from("/d"), vec![entry("old", "/d")]);
    wd.update(vec![entry("n2", "/d"), entry("n1", "/d")]);
    assert_eq!(wd.cwd(), "/d");
    assert_eq!(listing_names(&wd), vec!["n1", "n2"]);
}

#[test]
fn forward_moves_into_path() {
    let mut wd = WorkingDir::new(String::from("/d"), vec![entry("sub", "/d")]);
    wd.forward("/d/sub", vec![entry("inner", "/d/sub")]);
    assert_eq!(wd.cwd(), "/d/sub");
    assert_eq!(listing_names(&wd), vec!["inner"]);
}

#[test]
fn forward_refused_while_empty() {
    let mut wd = WorkingDir::new(String::from("/d"), vec![]);
    wd.forward("/d/sub", vec![entry("inner", "/d/sub")]);
    assert_eq!(wd.cwd(), "/d");
    assert!(wd.is_empty());
}

#[test]
fn back_pops_one_component() {
    let mut wd = WorkingDir::new(String::from("/d/sub"), vec![]);
    let went = wd.back(vec![entry("sub", "/d")]);
    assert!(went);
    assert_eq!(wd.cwd(), "/d");
    assert_eq!(listing_names(&wd), vec!["sub"]);

    let went = wd.back(vec![]);
    assert!(went);
    assert_eq!(wd.cwd(), "/");

    // at the root: refused
    let went = wd.back(vec![entry("x", "/")]);
    assert!(!went);
    assert_eq!(wd.cwd(), "/");
}

#[test]
fn set_cwd_points_elsewhere() {
    let mut wd = WorkingDir::new(String::from("/d"), vec![]);
    wd.set_cwd(String::from("/elsewhere"), vec![entry("thing", "/elsewhere")]);
    assert_eq!(wd.cwd(), "/elsewhere");
    assert_eq!(listing_names(&wd), vec!["thing"]);
}

#[test]
fn clone_copies_the_snapshot() {
    let wd = WorkingDir::new(String::from("/d"), vec![entry("a", "/d")]);
    let copy = wd.clone();
    assert_eq!(copy.cwd(), "/d");
    assert_eq!(listing_names(&copy), vec!["a"]);
}
