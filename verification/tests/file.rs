use fm::{File, FileMeta, FileType};

fn plain_file(name: &str, path: &str) -> File {
    File {
        name: String::from(name),
        ftype: FileType::File,
        perms: fm::Permissions::from(0o644),
        path: String::from(path),
        size: 0,
        is_selected: false,
    }
}

#[test]
fn size_999_renders_bytes() {
    let mut f = plain_file("a", "/d/a");
    f.size = 999;
    assert_eq!(f.size_to_readable(), "999 B");
}

#[test]
fn size_1000_renders_next_unit_two_decimals() {
    let mut f = plain_file("a", "/d/a");
    f.size = 1000;
    assert_eq!(f.size_to_readable(), "1.00 kB");
}

#[test]
fn size_zero_renders_bytes() {
    let f = plain_file("a", "/d/a");
    assert_eq!(f.size_to_readable(), "0 B");
}

#[test]
fn size_promotion_boundary_is_999950() {
    let mut f = plain_file("a", "/d/a");
    // just below the boundary in kB: stays in kB
    f.size = 999_949_999;
    assert_eq!(f.size_to_readable(), "999949.99 kB");
    // at the boundary: promotes to MB
    f.size = 999_950_000;
    assert_eq!(f.size_to_readable(), "999.95 MB");
}

#[test]
fn size_larger_units() {
    let mut f = plain_file("a", "/d/a");
    f.size = 1_500_000;
    assert_eq!(f.size_to_readable(), "1500.00 kB");
    f.size = 2_000_000_000;
    assert_eq!(f.size_to_readable(), "2000.00 MB");
    f.size = 3_000_000_000_000;
    assert_eq!(f.size_to_readable(), "3000.00 GB");
    f.size = 4_000_000_000_000_000;
    assert_eq!(f.size_to_readable(), "4000.00 TB");
    f.size = u64::MAX;
    assert_eq!(f.size_to_readable(), "18446.74 EB");
}

#[test]
fn classification_order_symlink_first() {
    // a symlink to a directory classifies as a symlink
    let f = File::from_meta(
        String::from("/d/link"),
        Some(FileMeta { mode: 0o777, size: 1, is_dir: true, is_symlink: true }),
    );
    assert_eq!(f.ftype, FileType::Symlink);

    let f = File::from_meta(
        String::from("/d/sub"),
        Some(FileMeta { mode: 0o755, size: 1, is_dir: true, is_symlink: false }),
    );
    assert_eq!(f.ftype, FileType::Directory);

    // owner execute bit set: executable
    let f = File::from_meta(
        String::from("/d/tool"),
        Some(FileMeta { mode: 0o744, size: 1, is_dir: false, is_symlink: false }),
    );
    assert_eq!(f.ftype, FileType::Executable);

    let f = File::from_meta(
        String::from("/d/plain"),
        Some(FileMeta { mode: 0o644, size: 1, is_dir: false, is_symlink: false }),
    );
    assert_eq!(f.ftype, FileType::File);
}

#[test]
fn unreadable_metadata_defaults() {
    let f = File::from_meta(String::from("/d/ghost"), None);
    assert_eq!(f.ftype, FileType::File);
    assert_eq!(f.size, 0);
    assert!(!f.perms.is_valid());
    assert_eq!(f.name, "ghost");
}

#[test]
fn name_follows_path() {
    let mut f = plain_file("old", "/d/sub/renamed.txt");
    f.update();
    assert_eq!(f.name, "renamed.txt");
    assert_eq!(f.path(), "/d/sub/renamed.txt");
}

#[test]
fn update_size_replaces_size() {
    let mut f = plain_file("a", "/d/a");
    f.update_size(42);
    assert_eq!(f.size, 42);
}
