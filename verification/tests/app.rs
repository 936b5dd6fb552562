use fm::events::{complete_ascend, complete_descend, complete_mutation, complete_open, handle_key, refresh_dir, Action, Key};
use fm::userinput::Command;
use fm::{App, File, FileMeta, FileType, FsError, FsRequest, InputMode, Permissions, Search, WorkingDir};

fn entry(name: &str, dir: &str, ftype: FileType) -> File {
    let path = if dir == "/" {
        format!("/{}", name)
    } else {
        format!("{}/{}", dir, name)
    };
    File {
        name: String::from(name),
        ftype,
        perms: Permissions::from(0o644),
        path,
        size: 0,
        is_selected: false,
    }
}

fn names(app: &App) -> Vec<String> {
    app.displayed_files.iter().map(|f| f.name.clone()).collect()
}

fn fresh_cmd() -> Command {
    Command::Search(Search::default())
}

#[test]
fn entries_sort_with_leading_dot_stripped() {
    let files = vec![
        entry("b.txt", "/d", FileType::File),
        entry(".a", "/d", FileType::File),
        entry("c", "/d", FileType::File),
    ];
    let app = App::new(String::from("/d"), files);
    assert_eq!(names(&app), vec![".a", "b.txt", "c"]);
    assert_eq!(app.flist_state.selected, Some(0));
}

#[test]
fn search_filters_and_escape_restores() {
    let files = vec![
        entry("b.txt", "/d", FileType::File),
        entry(".a", "/d", FileType::File),
        entry("c", "/d", FileType::File),
    ];
    let mut app = App::new(String::from("/d"), files);
    let mut cmd = fresh_cmd();
    assert_eq!(names(&app), vec![".a", "b.txt", "c"]);

    // start the search prompt
    assert!(matches!(handle_key(&mut app, &mut cmd, Key::Char('/')), Action::Idle));
    assert_eq!(app.input_mode, InputMode::Editing);
    assert!(app.is_searching);

    // type "c": the list narrows live, cursor on the first hit
    assert!(matches!(handle_key(&mut app, &mut cmd, Key::Char('c')), Action::Idle));
    assert_eq!(names(&app), vec!["c"]);
    assert_eq!(app.flist_state.selected, Some(0));

    // escape: filter cleared, three entries back, cursor reset
    assert!(matches!(handle_key(&mut app, &mut cmd, Key::Esc), Action::Idle));
    assert_eq!(app.input_mode, InputMode::Normal);
    assert_eq!(names(&app), vec![".a", "b.txt", "c"]);
    assert_eq!(app.flist_state.selected, Some(0));
    assert!(!app.is_searching);
}

#[test]
fn search_without_match_reports_no_match() {
    let files = vec![entry("alpha", "/d", FileType::File)];
    let mut app = App::new(String::from("/d"), files);
    let mut cmd = fresh_cmd();
    handle_key(&mut app, &mut cmd, Key::Char('/'));
    handle_key(&mut app, &mut cmd, Key::Char('z'));
    assert_eq!(names(&app), Vec::<String>::new());
    // confirm with an empty result: filter discarded, error shown
    handle_key(&mut app, &mut cmd, Key::Enter);
    assert_eq!(app.input_mode, InputMode::Error);
    assert_eq!(app.err_msg, "No match");
    assert_eq!(names(&app), vec!["alpha"]);
    // the next key clears the error back to browsing
    handle_key(&mut app, &mut cmd, Key::Char('x'));
    assert_eq!(app.input_mode, InputMode::Normal);
    assert_eq!(app.err_msg, "");
}

#[test]
fn create_in_empty_directory_yields_single_entry() {
    let mut app = App::new(String::from("/d"), vec![]);
    let mut cmd = fresh_cmd();
    assert_eq!(app.flist_state.selected, None);

    handle_key(&mut app, &mut cmd, Key::Char('a'));
    assert_eq!(app.input_mode, InputMode::Editing);
    for c in "x.txt".chars() {
        handle_key(&mut app, &mut cmd, Key::Char(c));
    }
    let act = handle_key(&mut app, &mut cmd, Key::Enter);
    let req = match act {
        Action::Mutate(req) => req,
        _ => panic!("expected a mutation request"),
    };
    match &req {
        FsRequest::Create { path, dir } => {
            assert_eq!(path, "/d/x.txt");
            assert!(!*dir);
        }
        _ => panic!("expected a create request"),
    }
    assert_eq!(refresh_dir(&app, &req), "/d");

    // the caller created the file and re-read the directory
    let listing = vec![File::from_meta(
        String::from("/d/x.txt"),
        Some(FileMeta { mode: 0o644, size: 0, is_dir: false, is_symlink: false }),
    )];
    complete_mutation(&mut app, &req, Ok(()), Ok(listing));
    assert_eq!(app.input_mode, InputMode::Normal);
    assert_eq!(names(&app), vec!["x.txt"]);
    assert_eq!(app.displayed_files[0].ftype, FileType::File);
    assert_eq!(app.displayed_files[0].size, 0);
    assert_eq!(app.flist_state.selected, Some(0));
}

#[test]
fn navigate_up_from_root_is_a_no_op() {
    let mut wd = WorkingDir::new(String::from("/"), vec![entry("etc", "/", FileType::Directory)]);
    let went_back = wd.back(vec![]);
    assert!(!went_back);
    assert_eq!(wd.cwd(), "/");
    assert_eq!(wd.len(), 1);
    assert_eq!(wd.files()[0].name, "etc");
}

#[test]
fn ascend_at_root_leaves_state_unchanged() {
    let mut app = App::new(String::from("/"), vec![entry("etc", "/", FileType::Directory)]);
    let mut cmd = fresh_cmd();
    let act = handle_key(&mut app, &mut cmd, Key::Char('h'));
    assert!(matches!(act, Action::Idle));
    assert_eq!(app.wd.cwd(), "/");
    complete_ascend(&mut app, Ok(vec![]));
    assert_eq!(app.wd.cwd(), "/");
    assert_eq!(names(&app), vec!["etc"]);
}

#[test]
fn ascend_moves_to_parent() {
    let mut app = App::new(String::from("/d/sub"), vec![entry("f", "/d/sub", FileType::File)]);
    let mut cmd = fresh_cmd();
    let act = handle_key(&mut app, &mut cmd, Key::Char('h'));
    let path = match act {
        Action::Ascend { path } => path,
        _ => panic!("expected an ascend request"),
    };
    assert_eq!(path, "/d");
    complete_ascend(&mut app, Ok(vec![entry("sub", "/d", FileType::Directory)]));
    assert_eq!(app.wd.cwd(), "/d");
    assert_eq!(names(&app), vec!["sub"]);
    assert_eq!(app.flist_state.selected, Some(0));
}

#[test]
fn descend_into_empty_directory_is_refused() {
    let files = vec![entry("sub", "/d", FileType::Directory)];
    let mut app = App::new(String::from("/d"), files);
    let mut cmd = fresh_cmd();
    let act = handle_key(&mut app, &mut cmd, Key::Char('l'));
    let path = match act {
        Action::Descend { path } => path,
        _ => panic!("expected a descend request"),
    };
    assert_eq!(path, "/d/sub");
    // the target has zero entries: refused, no state change
    complete_descend(&mut app, Ok(vec![]));
    assert_eq!(app.wd.cwd(), "/d");
    assert_eq!(names(&app), vec!["sub"]);
    assert_eq!(app.flist_state.selected, Some(0));
    assert_eq!(app.input_mode, InputMode::Normal);
}

#[test]
fn descend_into_populated_directory() {
    let files = vec![entry("sub", "/d", FileType::Directory)];
    let mut app = App::new(String::from("/d"), files);
    let mut cmd = fresh_cmd();
    let act = handle_key(&mut app, &mut cmd, Key::Char('l'));
    let path = match act {
        Action::Descend { path } => path,
        _ => panic!("expected a descend request"),
    };
    complete_descend(&mut app, Ok(vec![entry("inner", &path, FileType::File)]));
    assert_eq!(app.wd.cwd(), "/d/sub");
    assert_eq!(names(&app), vec!["inner"]);
}

#[test]
fn descend_on_plain_file_does_nothing() {
    let files = vec![entry("f", "/d", FileType::File)];
    let mut app = App::new(String::from("/d"), files);
    let mut cmd = fresh_cmd();
    let act = handle_key(&mut app, &mut cmd, Key::Char('l'));
    assert!(matches!(act, Action::Idle));
    assert_eq!(app.wd.cwd(), "/d");
}

#[test]
fn delete_sole_entry_empties_the_list() {
    let files = vec![entry("only.txt", "/d", FileType::File)];
    let mut app = App::new(String::from("/d"), files);
    let mut cmd = fresh_cmd();

    handle_key(&mut app, &mut cmd, Key::Char('d'));
    assert_eq!(app.input_mode, InputMode::Editing);
    handle_key(&mut app, &mut cmd, Key::Char('y'));
    let act = handle_key(&mut app, &mut cmd, Key::Enter);
    let req = match act {
        Action::Mutate(req) => req,
        _ => panic!("expected a mutation request"),
    };
    match &req {
        FsRequest::Delete { path, recursive } => {
            assert_eq!(path, "/d/only.txt");
            assert!(!*recursive);
        }
        _ => panic!("expected a delete request"),
    }
    complete_mutation(&mut app, &req, Ok(()), Ok(vec![]));
    assert_eq!(names(&app), Vec::<String>::new());
    assert_eq!(app.flist_state.selected, None);
    assert_eq!(app.input_mode, InputMode::Normal);
}

#[test]
fn delete_clamps_cursor_to_last_entry() {
    let files = vec![
        entry("a", "/d", FileType::File),
        entry("b", "/d", FileType::File),
        entry("c", "/d", FileType::File),
    ];
    let mut app = App::new(String::from("/d"), files);
    let mut cmd = fresh_cmd();
    // move the cursor to the last entry and delete it
    handle_key(&mut app, &mut cmd, Key::Char('G'));
    assert_eq!(app.flist_state.selected, Some(2));
    handle_key(&mut app, &mut cmd, Key::Char('d'));
    handle_key(&mut app, &mut cmd, Key::Char('Y'));
    let act = handle_key(&mut app, &mut cmd, Key::Enter);
    let req = match act {
        Action::Mutate(req) => req,
        _ => panic!("expected a mutation request"),
    };
    let listing = vec![entry("a", "/d", FileType::File), entry("b", "/d", FileType::File)];
    complete_mutation(&mut app, &req, Ok(()), Ok(listing));
    assert_eq!(names(&app), vec!["a", "b"]);
    // index 2 is gone: the cursor clamps to the last remaining entry
    assert_eq!(app.flist_state.selected, Some(1));
}

#[test]
fn delete_not_confirmed_cancels() {
    let files = vec![entry("a", "/d", FileType::File)];
    let mut app = App::new(String::from("/d"), files);
    let mut cmd = fresh_cmd();
    handle_key(&mut app, &mut cmd, Key::Char('d'));
    handle_key(&mut app, &mut cmd, Key::Char('n'));
    let act = handle_key(&mut app, &mut cmd, Key::Enter);
    assert!(matches!(act, Action::Idle));
    assert_eq!(app.input_mode, InputMode::Normal);
    assert_eq!(names(&app), vec!["a"]);
}

#[test]
fn rename_to_same_path_is_a_no_op() {
    let files = vec![entry("a", "/d", FileType::File)];
    let mut app = App::new(String::from("/d"), files);
    let mut cmd = fresh_cmd();
    handle_key(&mut app, &mut cmd, Key::Char('r'));
    assert_eq!(app.input_mode, InputMode::Editing);
    assert_eq!(cmd.input(), "/d/a");
    // confirm without editing: destination equals source
    let act = handle_key(&mut app, &mut cmd, Key::Enter);
    assert!(matches!(act, Action::Idle));
    assert_eq!(app.input_mode, InputMode::Normal);
}

#[test]
fn rename_within_directory_reselects_target() {
    let files = vec![entry("a", "/d", FileType::File), entry("b", "/d", FileType::File)];
    let mut app = App::new(String::from("/d"), files);
    let mut cmd = fresh_cmd();
    handle_key(&mut app, &mut cmd, Key::Char('r'));
    handle_key(&mut app, &mut cmd, Key::Backspace);
    handle_key(&mut app, &mut cmd, Key::Char('z'));
    let act = handle_key(&mut app, &mut cmd, Key::Enter);
    let req = match act {
        Action::Mutate(req) => req,
        _ => panic!("expected a mutation request"),
    };
    match &req {
        FsRequest::Rename { from, to } => {
            assert_eq!(from, "/d/a");
            assert_eq!(to, "/d/z");
        }
        _ => panic!("expected a rename request"),
    }
    assert_eq!(refresh_dir(&app, &req), "/d");
    let listing = vec![entry("b", "/d", FileType::File), entry("z", "/d", FileType::File)];
    complete_mutation(&mut app, &req, Ok(()), Ok(listing));
    assert_eq!(app.wd.cwd(), "/d");
    assert_eq!(names(&app), vec!["b", "z"]);
    assert_eq!(app.flist_state.selected, Some(1));
}

#[test]
fn rename_into_other_directory_moves_cwd() {
    let files = vec![entry("a", "/d", FileType::File)];
    let mut app = App::new(String::from("/d"), files);
    let req = FsRequest::Rename { from: String::from("/d/a"), to: String::from("/e/a") };
    assert_eq!(refresh_dir(&app, &req), "/e");
    let listing = vec![entry("a", "/e", FileType::File)];
    complete_mutation(&mut app, &req, Ok(()), Ok(listing));
    assert_eq!(app.wd.cwd(), "/e");
    assert_eq!(names(&app), vec!["a"]);
}

#[test]
fn copy_keeps_cwd_wherever_the_target_lies() {
    let files = vec![entry("a", "/d", FileType::File)];
    let mut app = App::new(String::from("/d"), files);
    let req = FsRequest::Copy { from: String::from("/d/a"), to: String::from("/e/a") };
    // the refresh read stays in the current directory
    assert_eq!(refresh_dir(&app, &req), "/d");
    let listing = vec![entry("a", "/d", FileType::File)];
    complete_mutation(&mut app, &req, Ok(()), Ok(listing));
    assert_eq!(app.wd.cwd(), "/d");
    assert_eq!(names(&app), vec!["a"]);
    // the copied-to path is elsewhere: selection falls back to the first entry
    assert_eq!(app.flist_state.selected, Some(0));
}

#[test]
fn failed_mutation_shows_error_message() {
    let files = vec![entry("a", "/d", FileType::File)];
    let mut app = App::new(String::from("/d"), files);
    let req = FsRequest::Create { path: String::from("/d/a"), dir: false };
    complete_mutation(&mut app, &req, Err(FsError::AlreadyExists), Ok(vec![]));
    assert_eq!(app.input_mode, InputMode::Error);
    assert_eq!(app.err_msg, "Already Exists");
    // state otherwise untouched
    assert_eq!(names(&app), vec!["a"]);

    let mut app = App::new(String::from("/d"), vec![]);
    let req = FsRequest::Delete { path: String::from("/d/a"), recursive: false };
    complete_mutation(&mut app, &req, Err(FsError::PermissionDenied), Ok(vec![]));
    assert_eq!(app.err_msg, "Permission Denied");
}

#[test]
fn error_messages_per_variant() {
    assert_eq!(FsError::NotFound.message(), "Not Found");
    assert_eq!(FsError::AlreadyExists.message(), "Already Exists");
    assert_eq!(FsError::PermissionDenied.message(), "Permission Denied");
    assert_eq!(FsError::UndecodableName.message(), "Undecodable Name");
    assert_eq!(FsError::EmptyDirectory.message(), "Empty Directory");
    assert_eq!(
        FsError::Unexpected(String::from("raw os error")).message(),
        "raw os error"
    );
}

#[test]
fn cursor_moves_wrap_and_clamp() {
    let files = vec![
        entry("a", "/d", FileType::File),
        entry("b", "/d", FileType::File),
        entry("c", "/d", FileType::File),
    ];
    let mut app = App::new(String::from("/d"), files);
    let mut cmd = fresh_cmd();
    assert_eq!(app.flist_state.selected, Some(0));
    handle_key(&mut app, &mut cmd, Key::Char('j'));
    assert_eq!(app.flist_state.selected, Some(1));
    handle_key(&mut app, &mut cmd, Key::Char('j'));
    assert_eq!(app.flist_state.selected, Some(2));
    // wraps from the last entry to the first
    handle_key(&mut app, &mut cmd, Key::Char('j'));
    assert_eq!(app.flist_state.selected, Some(0));
    // stops at the first going up
    handle_key(&mut app, &mut cmd, Key::Char('k'));
    assert_eq!(app.flist_state.selected, Some(0));
    handle_key(&mut app, &mut cmd, Key::Char('G'));
    assert_eq!(app.flist_state.selected, Some(2));
    // the doubled 'g' chord jumps to the first entry
    handle_key(&mut app, &mut cmd, Key::Char('g'));
    assert_eq!(app.flist_state.selected, Some(2));
    handle_key(&mut app, &mut cmd, Key::Char('g'));
    assert_eq!(app.flist_state.selected, Some(0));
}

#[test]
fn open_file_refreshes_selected_size() {
    let files = vec![entry("a.txt", "/d", FileType::File)];
    let mut app = App::new(String::from("/d"), files);
    let mut cmd = fresh_cmd();
    let act = handle_key(&mut app, &mut cmd, Key::Enter);
    let path = match act {
        Action::OpenFile { path } => path,
        _ => panic!("expected an editor request"),
    };
    assert_eq!(path, "/d/a.txt");
    complete_open(&mut app, Some(31));
    assert_eq!(app.displayed_files[0].size, 31);
}

#[test]
fn mark_toggles_on_v_and_clears_on_escape() {
    let files = vec![entry("a", "/d", FileType::File), entry("b", "/d", FileType::File)];
    let mut app = App::new(String::from("/d"), files);
    let mut cmd = fresh_cmd();
    handle_key(&mut app, &mut cmd, Key::Char('v'));
    assert!(app.displayed_files[0].is_selected);
    assert!(!app.displayed_files[1].is_selected);
    handle_key(&mut app, &mut cmd, Key::Esc);
    assert!(!app.displayed_files[0].is_selected);
}

#[test]
fn quit_key_requests_quit() {
    let mut app = App::new(String::from("/d"), vec![]);
    let mut cmd = fresh_cmd();
    assert!(matches!(handle_key(&mut app, &mut cmd, Key::Char('q')), Action::Quit));
    assert!(matches!(handle_key(&mut app, &mut cmd, Key::Tick), Action::Idle));
}

#[test]
fn confirm_with_nothing_selected_reports_error() {
    let mut app = App::new(String::from("/d"), vec![]);
    let mut cmd = fresh_cmd();
    handle_key(&mut app, &mut cmd, Key::Char('d'));
    assert_eq!(app.input_mode, InputMode::Editing);
    handle_key(&mut app, &mut cmd, Key::Char('y'));
    let act = handle_key(&mut app, &mut cmd, Key::Enter);
    assert!(matches!(act, Action::Idle));
    assert_eq!(app.input_mode, InputMode::Error);
    assert_eq!(app.err_msg, "No File selected");
}

#[test]
fn rename_key_with_nothing_selected_stays_browsing() {
    let mut app = App::new(String::from("/d"), vec![]);
    let mut cmd = fresh_cmd();
    let act = handle_key(&mut app, &mut cmd, Key::Char('r'));
    assert!(matches!(act, Action::Idle));
    assert_eq!(app.input_mode, InputMode::Normal);
}

#[test]
fn create_directory_request_carries_the_kind() {
    let mut app = App::new(String::from("/d"), vec![]);
    let mut cmd = fresh_cmd();
    handle_key(&mut app, &mut cmd, Key::Char('A'));
    assert_eq!(cmd.msg(), " Create new directory: ");
    handle_key(&mut app, &mut cmd, Key::Char('s'));
    let act = handle_key(&mut app, &mut cmd, Key::Enter);
    match act {
        Action::Mutate(FsRequest::Create { path, dir }) => {
            assert_eq!(path, "/d/s");
            assert!(dir);
        }
        _ => panic!("expected a directory-create request"),
    }
}

#[test]
fn create_with_empty_name_cancels() {
    let mut app = App::new(String::from("/d"), vec![]);
    let mut cmd = fresh_cmd();
    handle_key(&mut app, &mut cmd, Key::Char('a'));
    let act = handle_key(&mut app, &mut cmd, Key::Enter);
    assert!(matches!(act, Action::Idle));
    assert_eq!(app.input_mode, InputMode::Normal);
}

#[test]
fn backspace_on_empty_buffer_cancels_the_prompt() {
    let mut app = App::new(String::from("/d"), vec![]);
    let mut cmd = fresh_cmd();
    handle_key(&mut app, &mut cmd, Key::Char('a'));
    assert_eq!(app.input_mode, InputMode::Editing);
    let act = handle_key(&mut app, &mut cmd, Key::Backspace);
    assert!(matches!(act, Action::Idle));
    assert_eq!(app.input_mode, InputMode::Normal);
}
