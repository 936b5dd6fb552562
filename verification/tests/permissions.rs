use fm::Permissions;

fn testing_perm_all() -> Permissions {
    Permissions::from(511)
}

fn testing_perm_none() -> Permissions {
    Permissions::from(0)
}

#[test]
fn it_works() {
    assert_eq!(2 + 2, 4);
}

#[test]
fn test_is_user_exec() {
    let perm = testing_perm_all();
    assert!(perm.is_user_exec())
}

#[test]
fn test_user_not_exec() {
    let perm = testing_perm_none();
    // passes if user does not have exec perms
    assert!(!perm.is_user_exec());
}

#[test]
fn test_is_user_write() {
    let perm = testing_perm_all();
    assert!(perm.is_user_write())
}

#[test]
fn test_user_not_write() {
    let perm = testing_perm_none();
    // passes if user does not have exec perms
    assert!(!perm.is_user_write());
}

#[test]
fn test_is_user_read() {
    let perm = testing_perm_all();
    assert!(perm.is_user_read())
}

#[test]
fn test_user_not_read() {
    let perm = testing_perm_none();
    // passes if user does not have exec perms
    assert!(!perm.is_user_read());
}

#[test]
fn test_display1() {
    let perm = testing_perm_all();
    assert_eq!(String::from("rwxrwxrwx"), perm.render())
}

#[test]
fn test_display2() {
    let perm = testing_perm_none();
    assert_eq!(String::from("---------"), perm.render())
}

#[test]
fn test_display_mixed_bits() {
    // owner rwx, group r-x, other r--: 111 101 100
    let perm = Permissions::from(0b111_101_100);
    assert_eq!(String::from("rwxr-xr--"), perm.render());
}

#[test]
fn test_out_of_range_is_invalid() {
    let perm = Permissions::from(512);
    assert!(!perm.is_valid());
    assert_eq!(String::from("Error Reading Permissions!"), perm.render());
    let perm = Permissions::from(u32::MAX);
    assert_eq!(String::from("Error Reading Permissions!"), perm.render());
}

#[test]
fn test_in_range_is_valid() {
    assert!(Permissions::from(511).is_valid());
    assert!(Permissions::from(0).is_valid());
}
