//! The event step: one keystroke (or timer tick) in, one state transition
//! and at most one outward action out. The caller performs the action —
//! reading a directory, running the editor, or one filesystem mutation — and
//! hands the result back to a completion function here.

use vstd::prelude::*;

use crate::app::{app_shows_error, reset_cursor, with_mark, App, InputMode};
use crate::file::{file_le, File};
use crate::filetype::FileType;
use crate::fsops::{FsError, FsRequest};
use crate::paths::{is_root, parent_of, path_parent};
use crate::text::str_eq;
use crate::userinput::{
    add_post, clear_post, confirm_post, del_post, Command, FileCopy, FileCreate, FileDelete,
    FileRename, Search,
};

verus! {

/// One abstract input event, as the terminal driver delivers it.
#[derive(Debug, Clone, Copy)]
pub enum Key {
    Char(char),
    Enter,
    Esc,
    Backspace,
    Tick,
}

/// What the caller is asked to do after a step. Every variant but `Quit`
/// and `None` has a completion function that consumes its result.
#[derive(Debug)]
pub enum Action {
    /// Nothing to do.
    Idle,
    /// Leave the event loop.
    Quit,
    /// Read the directory at `path`; hand the result to `complete_descend`.
    Descend { path: String },
    /// Read the directory at `path` (the parent of the current one); hand
    /// the result to `complete_ascend`.
    Ascend { path: String },
    /// Suspend, open the file at `path` in the editor, re-read its size, and
    /// hand that to `complete_open`.
    OpenFile { path: String },
    /// Carry the mutation out, re-read the directory `refresh_dir` names,
    /// and hand both results to `complete_mutation`.
    Mutate(FsRequest),
}

/// Only the cursor differs between the two states.
pub open spec fn only_cursor_changed(app0: App, app1: App) -> bool {
    app1 == (App { flist_state: app1.flist_state, ..app0 })
}

/// Where the cursor stands after one step down: the next entry, wrapping
/// from the last to the first; unmoved when nothing is selected.
pub open spec fn cursor_down_sel(app: App) -> Option<usize> {
    match app.flist_state.selected {
        Some(i) => if i as int >= app.displayed_files@.len() - 1 {
            Some(0usize)
        } else {
            Some((i + 1) as usize)
        },
        None => None,
    }
}

/// Where the cursor stands after one step up: the previous entry, stopping
/// at the first; unmoved when nothing is selected.
pub open spec fn cursor_up_sel(app: App) -> Option<usize> {
    match app.flist_state.selected {
        Some(i) => if i > 0 {
            Some((i - 1) as usize)
        } else {
            Some(0usize)
        },
        None => None,
    }
}

/// The cursor on the last displayed entry, or nothing when the list is
/// empty.
pub open spec fn cursor_last_sel(app: App) -> Option<usize> {
    if app.displayed_files@.len() == 0 {
        None
    } else {
        Some((app.displayed_files@.len() - 1) as usize)
    }
}

/// The state after `end_input`: the full snapshot displayed, cursor reset,
/// search discarded, browsing mode.
pub open spec fn app_input_ended(app0: App, app1: App) -> bool {
    &&& app1.displayed_files@ == app0.wd.files@
    &&& app1.input_mode == InputMode::Normal
    &&& app1.flist_state.selected == reset_cursor(app0.wd.files@)
    &&& app1.is_searching == false
    &&& app1.searching_for@ == Seq::<char>::empty()
    &&& app1.wd == app0.wd
    &&& app1.err_msg == app0.err_msg
    &&& app1.key_press == app0.key_press
}

/// The marks of all displayed entries cleared, nothing else changed.
pub open spec fn app_marks_cleared(app0: App, app1: App) -> bool {
    &&& app1.displayed_files@ == app0.displayed_files@.map_values(|f: File| with_mark(f, false))
    &&& app1.wd == app0.wd
    &&& app1.flist_state == app0.flist_state
    &&& app1.err_msg == app0.err_msg
    &&& app1.key_press == app0.key_press
    &&& app1.is_searching == app0.is_searching
    &&& app1.searching_for == app0.searching_for
}

/// A freshly opened delete prompt.
pub open spec fn fresh_delete(c: Command) -> bool {
    c matches Command::Delete(d) && d.msg@ == " Are you sure you want to delete this [y/n]: "@
        && d.input@ == Seq::<char>::empty()
}

/// A freshly opened create prompt, for a regular file or a directory.
pub open spec fn fresh_create(c: Command, dir: bool) -> bool {
    c matches Command::Create(fc) && fc.creating_dir == dir && fc.input@ == Seq::<char>::empty()
        && fc.msg@ == (if dir {
        " Create new directory: "@
    } else {
        " Create new file: "@
    })
}

/// A freshly opened rename prompt, seeded with the selected entry's path.
pub open spec fn fresh_rename(c: Command, seed: Seq<char>) -> bool {
    c matches Command::Rename(r) && r.msg@ == " Rename file: "@ && r.input@ == seed
}

/// A freshly opened copy prompt, seeded with the selected entry's path.
pub open spec fn fresh_copy(c: Command, seed: Seq<char>) -> bool {
    c matches Command::Copy(p) && p.msg@ == " Copy file to: "@ && p.input@ == seed
}

/// A freshly opened search prompt.
pub open spec fn fresh_search(c: Command) -> bool {
    c matches Command::Search(s) && s.msg@ == "/"@ && s.input@ == Seq::<char>::empty()
}

/// What one character does in browsing mode: q quits; j/k/g-g/G move the
/// cursor; h and l ask to ascend or descend; d, a, A, r, c and / open a
/// prompt; v toggles the selected entry's mark.
pub open spec fn normal_char_step(
    app0: App,
    cmd0: Command,
    c: char,
    app1: App,
    cmd1: Command,
    act: Action,
) -> bool {
    if c == 'q' {
        act is Quit && app1 == app0 && cmd1 == cmd0
    } else if c == 'j' {
        &&& act is Idle
        &&& cmd1 == cmd0
        &&& only_cursor_changed(app0, app1)
        &&& app1.flist_state.selected == cursor_down_sel(app0)
    } else if c == 'k' {
        &&& act is Idle
        &&& cmd1 == cmd0
        &&& only_cursor_changed(app0, app1)
        &&& app1.flist_state.selected == cursor_up_sel(app0)
    } else if c == 'h' {
        &&& app1 == app0
        &&& clear_post(cmd0, cmd1)
        &&& if is_root(app0.wd.cwd@) {
            act is Idle
        } else {
            act matches Action::Ascend { path } && path@ == parent_of(app0.wd.cwd@)
        }
    } else if c == 'l' {
        &&& app1 == app0
        &&& match app0.spec_selected_file() {
            Some(f) => if f.ftype == FileType::Directory {
                clear_post(cmd0, cmd1) && (act matches Action::Descend { path } && path@ == f.path@)
            } else {
                cmd1 == cmd0 && act is Idle
            },
            None => cmd1 == cmd0 && act is Idle,
        }
    } else if c == 'g' {
        &&& act is Idle
        &&& cmd1 == cmd0
        &&& if app0.key_press@ == "g"@ {
            &&& app1.flist_state.selected == reset_cursor(app0.displayed_files@)
            &&& app1.key_press@ == Seq::<char>::empty()
            &&& app1 == (App {
                flist_state: app1.flist_state,
                key_press: app1.key_press,
                ..app0
            })
        } else {
            app1.key_press@ == "g"@ && app1 == (App { key_press: app1.key_press, ..app0 })
        }
    } else if c == 'G' {
        &&& act is Idle
        &&& cmd1 == cmd0
        &&& only_cursor_changed(app0, app1)
        &&& app1.flist_state.selected == cursor_last_sel(app0)
    } else if c == 'd' {
        &&& act is Idle
        &&& app1 == (App { input_mode: InputMode::Editing, ..app0 })
        &&& fresh_delete(cmd1)
    } else if c == 'a' {
        &&& act is Idle
        &&& app1 == (App { input_mode: InputMode::Editing, ..app0 })
        &&& fresh_create(cmd1, false)
    } else if c == 'A' {
        &&& act is Idle
        &&& app1 == (App { input_mode: InputMode::Editing, ..app0 })
        &&& fresh_create(cmd1, true)
    } else if c == 'r' {
        &&& act is Idle
        &&& match app0.spec_selected_file() {
            Some(f) => app1 == (App { input_mode: InputMode::Editing, ..app0 }) && fresh_rename(
                cmd1,
                f.path@,
            ),
            None => app1 == app0 && cmd1 == cmd0,
        }
    } else if c == 'c' {
        &&& act is Idle
        &&& match app0.spec_selected_file() {
            Some(f) => app1 == (App { input_mode: InputMode::Editing, ..app0 }) && fresh_copy(
                cmd1,
                f.path@,
            ),
            None => app1 == app0 && cmd1 == cmd0,
        }
    } else if c == '/' {
        &&& act is Idle
        &&& if app0.is_searching {
            app1 == (App { input_mode: InputMode::Editing, ..app0 }) && cmd1 == cmd0
        } else {
            app1 == (App { input_mode: InputMode::Editing, is_searching: true, ..app0 })
                && fresh_search(cmd1)
        }
    } else if c == 'v' {
        &&& act is Idle
        &&& cmd1 == cmd0
        &&& app1 == (App { displayed_files: app1.displayed_files, ..app0 })
        &&& match app0.spec_selected_index() {
            Some(i) => app1.displayed_files@ == app0.displayed_files@.update(
                i,
                with_mark(app0.displayed_files@[i], !app0.displayed_files@[i].is_selected),
            ),
            None => app1.displayed_files == app0.displayed_files,
        }
    } else {
        act is Idle && app1 == app0 && cmd1 == cmd0
    }
}

/// One event in browsing mode: characters act as above; escape ends an
/// active search or clears the marks; everything else is ignored.
pub open spec fn normal_step(
    app0: App,
    cmd0: Command,
    key: Key,
    app1: App,
    cmd1: Command,
    act: Action,
) -> bool {
    match key {
        Key::Char(c) => normal_char_step(app0, cmd0, c, app1, cmd1, act),
        Key::Enter => {
            &&& cmd1 == cmd0
            &&& app1 == app0
            &&& match app0.spec_selected_file() {
                Some(f) => if f.ftype == FileType::File {
                    act matches Action::OpenFile { path } && path@ == f.path@
                } else {
                    act is Idle
                },
                None => act is Idle,
            }
        },
        Key::Esc => {
            &&& act is Idle
            &&& cmd1 == cmd0
            &&& if app0.is_searching {
                app_input_ended(app0, app1)
            } else {
                app_marks_cleared(app0, (App { input_mode: app0.input_mode, ..app1 }))
                    && app1.input_mode == InputMode::Normal
            }
        },
        _ => act is Idle && app1 == app0 && cmd1 == cmd0,
    }
}

/// One event while prompting: characters and backspace edit the buffer,
/// enter confirms, escape cancels the command entirely.
pub open spec fn editing_step(
    app0: App,
    cmd0: Command,
    key: Key,
    app1: App,
    cmd1: Command,
    act: Action,
) -> bool {
    match key {
        Key::Esc => {
            &&& act is Idle
            &&& app_input_ended(app0, app1)
            &&& clear_post(cmd0, cmd1)
        },
        Key::Enter => match act {
            Action::Mutate(req) => confirm_post(cmd0, app0, cmd1, app1, Some(req)),
            Action::Idle => confirm_post(cmd0, app0, cmd1, app1, None),
            _ => false,
        },
        Key::Char(c) => act is Idle && add_post(cmd0, app0, c, cmd1, app1),
        Key::Backspace => act is Idle && del_post(cmd0, app0, cmd1, app1),
        _ => act is Idle && app1 == app0 && cmd1 == cmd0,
    }
}

/// One full event step: ticks change nothing; error mode clears its message
/// back to browsing on any key; the visual mode is reserved and inert;
/// otherwise the mode's step applies.
pub open spec fn step_post(
    app0: App,
    cmd0: Command,
    key: Key,
    app1: App,
    cmd1: Command,
    act: Action,
) -> bool {
    if key is Tick {
        act is Idle && app1 == app0 && cmd1 == cmd0
    } else {
        match app0.input_mode {
            InputMode::Normal => normal_step(app0, cmd0, key, app1, cmd1, act),
            InputMode::Editing => editing_step(app0, cmd0, key, app1, cmd1, act),
            InputMode::Error => {
                &&& act is Idle
                &&& cmd1 == cmd0
                &&& app1.input_mode == InputMode::Normal
                &&& app1.err_msg@ == Seq::<char>::empty()
                &&& app1 == (App {
                    input_mode: InputMode::Normal,
                    err_msg: app1.err_msg,
                    ..app0
                })
            },
            InputMode::Visual => act is Idle && app1 == app0 && cmd1 == cmd0,
        }
    }
}

/// Drives the state machine by one event: exactly the transition relation
/// `step_post` describes, preserving the state's consistency.
pub fn handle_key(app: &mut App, cmd: &mut Command, key: Key) -> (act: Action)
    requires
        old(app).wf(),
    ensures
        final(app).wf(),
        step_post(*old(app), *old(cmd), key, *final(app), *final(cmd), act),
{
    match key {
        Key::Tick => Action::Idle,
        _ => {
            match app.input_mode {
                InputMode::Normal => handle_key_normal(app, cmd, key),
                InputMode::Editing => handle_key_editing(app, cmd, key),
                InputMode::Error => {
                    app.to_normal_mode();
                    app.err_msg = String::new();
                    Action::Idle
                },
                InputMode::Visual => Action::Idle,
            }
        },
    }
}

fn handle_key_normal(app: &mut App, cmd: &mut Command, key: Key) -> (act: Action)
    requires
        old(app).wf(),
        old(app).input_mode == InputMode::Normal,
        !(key is Tick),
    ensures
        final(app).wf(),
        normal_step(*old(app), *old(cmd), key, *final(app), *final(cmd), act),
{
    match key {
        Key::Char(c) => {
            if c == 'q' {
                Action::Quit
            } else if c == 'j' {
                app.cursor_down();
                Action::Idle
            } else if c == 'k' {
                app.cursor_up();
                Action::Idle
            } else if c == 'h' {
                cmd.clear();
                if crate::paths::path_is_root(app.wd.cwd().as_str()) {
                    Action::Idle
                } else {
                    let parent = path_parent(app.wd.cwd().as_str());
                    Action::Ascend { path: parent }
                }
            } else if c == 'l' {
                let target: Option<String> = match app.selected_file() {
                    Some(f) => {
                        if matches!(f.ftype, FileType::Directory) {
                            Some(f.path.clone())
                        } else {
                            None
                        }
                    },
                    None => None,
                };
                match target {
                    Some(path) => {
                        cmd.clear();
                        Action::Descend { path }
                    },
                    None => Action::Idle,
                }
            } else if c == 'g' {
                if str_eq(app.key_press.as_str(), "g") {
                    app.cursor_first();
                    app.key_press = String::new();
                } else {
                    app.key_press = "g".to_owned();
                }
                Action::Idle
            } else if c == 'G' {
                app.cursor_last();
                Action::Idle
            } else if c == 'd' {
                app.to_editing_mode();
                *cmd = Command::Delete(FileDelete::default());
                Action::Idle
            } else if c == 'a' {
                app.to_editing_mode();
                *cmd = Command::Create(FileCreate::default());
                Action::Idle
            } else if c == 'A' {
                app.to_editing_mode();
                *cmd = Command::Create(FileCreate::default().dir());
                Action::Idle
            } else if c == 'r' {
                let seed: Option<File> = match app.selected_file() {
                    Some(f) => Some(f.clone()),
                    None => None,
                };
                if let Some(f) = seed {
                    app.to_editing_mode();
                    *cmd = Command::Rename(FileRename::default().file(&f));
                }
                Action::Idle
            } else if c == 'c' {
                let seed: Option<File> = match app.selected_file() {
                    Some(f) => Some(f.clone()),
                    None => None,
                };
                if let Some(f) = seed {
                    app.to_editing_mode();
                    *cmd = Command::Copy(FileCopy::default().file(&f));
                }
                Action::Idle
            } else if c == '/' {
                if app.is_searching {
                    app.to_editing_mode();
                } else {
                    *cmd = Command::Search(Search::default());
                    app.to_editing_mode();
                    app.is_searching = true;
                }
                Action::Idle
            } else if c == 'v' {
                app.toggle_mark();
                Action::Idle
            } else {
                Action::Idle
            }
        },
        Key::Enter => {
            let target: Option<String> = match app.selected_file() {
                Some(f) => {
                    if matches!(f.ftype, FileType::File) {
                        Some(f.path.clone())
                    } else {
                        None
                    }
                },
                None => None,
            };
            match target {
                Some(path) => Action::OpenFile { path },
                None => Action::Idle,
            }
        },
        Key::Esc => {
            if app.is_searching {
                app.end_input();
            } else {
                app.clear_selection();
                app.to_normal_mode();
            }
            Action::Idle
        },
        _ => Action::Idle,
    }
}

fn handle_key_editing(app: &mut App, cmd: &mut Command, key: Key) -> (act: Action)
    requires
        old(app).wf(),
        old(app).input_mode == InputMode::Editing,
        !(key is Tick),
    ensures
        final(app).wf(),
        editing_step(*old(app), *old(cmd), key, *final(app), *final(cmd), act),
{
    match key {
        Key::Esc => {
            app.end_input();
            cmd.clear();
            Action::Idle
        },
        Key::Enter => {
            match cmd.on_enter(app) {
                Some(req) => Action::Mutate(req),
                None => Action::Idle,
            }
        },
        Key::Char(c) => {
            cmd.add_to_input(c, app);
            Action::Idle
        },
        Key::Backspace => {
            cmd.del(app);
            Action::Idle
        },
        _ => Action::Idle,
    }
}

/// The cursor standing on the first entry with path `p`, on the first entry
/// when none matches, or on nothing when the list is empty.
pub open spec fn select_target(d: Seq<File>, p: Seq<char>) -> Option<usize> {
    let k = crate::app::find_path_from(d, p, 0);
    if d.len() == 0 {
        None
    } else if k >= 0 {
        Some(k as usize)
    } else {
        Some(0usize)
    }
}

/// The state after a completed navigation downward: the snapshot moved to
/// the selected entry's directory, the listing and search reset.
pub open spec fn app_descended(app0: App, entries: Seq<File>, app1: App) -> bool {
    &&& app1.wd.cwd@ == app0.spec_selected_file()->Some_0.path@
    &&& app1.wd.files@.to_multiset() == entries.to_multiset()
    &&& app1.displayed_files@ == app1.wd.files@
    &&& app1.flist_state.selected == reset_cursor(app1.wd.files@)
    &&& app1.is_searching == false
    &&& app1.searching_for@ == Seq::<char>::empty()
    &&& app1.input_mode == app0.input_mode
    &&& app1.err_msg == app0.err_msg
    &&& app1.key_press == app0.key_press
}

/// The state after a completed navigation upward: the snapshot moved to the
/// parent directory, the listing and search reset.
pub open spec fn app_ascended(app0: App, entries: Seq<File>, app1: App) -> bool {
    &&& app1.wd.cwd@ == parent_of(app0.wd.cwd@)
    &&& app1.wd.files@.to_multiset() == entries.to_multiset()
    &&& app1.displayed_files@ == app1.wd.files@
    &&& app1.flist_state.selected == reset_cursor(app1.wd.files@)
    &&& app1.is_searching == false
    &&& app1.searching_for@ == Seq::<char>::empty()
    &&& app1.input_mode == app0.input_mode
    &&& app1.err_msg == app0.err_msg
    &&& app1.key_press == app0.key_press
}

/// Completes a descend request: with a successful, non-empty read of the
/// target the snapshot moves there; an empty or failed read refuses the
/// navigation and nothing changes.
pub fn complete_descend(app: &mut App, read: Result<Vec<File>, FsError>)
    requires
        old(app).wf(),
    ensures
        final(app).wf(),
        match read {
            Ok(entries) => if entries@.len() > 0 && old(app).spec_selected_file() is Some && old(
                app,
            ).wd.files@.len() > 0 {
                app_descended(*old(app), entries@, *final(app))
            } else {
                *final(app) == *old(app)
            },
            Err(_) => *final(app) == *old(app),
        },
{
    match read {
        Ok(entries) => {
            let has_sel = app.selected_file().is_some();
            if !entries.is_empty() && has_sel && !app.wd.is_empty() {
                app.wd_forward(entries);
            }
        },
        Err(_) => {},
    }
}

/// Completes an ascend request: with a successful read the snapshot moves to
/// the parent (a no-op at the root); a failed read refuses the navigation.
pub fn complete_ascend(app: &mut App, read: Result<Vec<File>, FsError>)
    requires
        old(app).wf(),
    ensures
        final(app).wf(),
        match read {
            Ok(entries) => if is_root(old(app).wd.cwd@) {
                *final(app) == *old(app)
            } else {
                app_ascended(*old(app), entries@, *final(app))
            },
            Err(_) => *final(app) == *old(app),
        },
{
    match read {
        Ok(entries) => {
            app.wd_back(entries);
        },
        Err(_) => {},
    }
}

/// Completes an editor suspend: the state resumes unchanged except for the
/// selected entry's size, refreshed from the value the caller re-read; with
/// no value (or nothing selected) nothing changes.
pub fn complete_open(app: &mut App, size: Option<u64>)
    requires
        old(app).wf(),
    ensures
        final(app).wf(),
        match size {
            Some(s) => {
                &&& *final(app) == (App {
                    displayed_files: final(app).displayed_files,
                    ..*old(app)
                })
                &&& match old(app).spec_selected_index() {
                    Some(i) => final(app).displayed_files@ == old(app).displayed_files@.update(
                        i,
                        (File { size: s, ..old(app).displayed_files@[i] }),
                    ),
                    None => final(app).displayed_files == old(app).displayed_files,
                }
            },
            None => *final(app) == *old(app),
        },
{
    if let Some(s) = size {
        app.update_selected_size(s);
    }
}

/// The directory the caller re-reads after a successful mutation: the new
/// parent for a rename, the current directory for everything else.
pub fn refresh_dir(app: &App, req: &FsRequest) -> (r: String)
    ensures
        r@ == match *req {
            FsRequest::Rename { to, .. } => parent_of(to@),
            _ => app.wd.cwd@,
        },
{
    match req {
        FsRequest::Rename { to, .. } => path_parent(to.as_str()),
        _ => app.wd.cwd().clone(),
    }
}

/// The state after a completed create or copy: the snapshot refreshed in
/// place, the full listing displayed, the target path re-selected, browsing
/// mode.
pub open spec fn app_refreshed_selected(
    app0: App,
    entries: Seq<File>,
    target: Seq<char>,
    app1: App,
) -> bool {
    &&& app1.wd.cwd == app0.wd.cwd
    &&& app1.wd.files@.to_multiset() == entries.to_multiset()
    &&& app1.displayed_files@ == app1.wd.files@
    &&& app1.flist_state.selected == select_target(app1.displayed_files@, target)
    &&& app1.input_mode == InputMode::Normal
    &&& app1.err_msg == app0.err_msg
    &&& app1.key_press == app0.key_press
    &&& app1.is_searching == app0.is_searching
    &&& app1.searching_for == app0.searching_for
}

/// The state after a completed rename: as after a create, except that the
/// snapshot's directory becomes the target's parent (which is the same
/// directory when the rename did not move the entry).
pub open spec fn app_renamed(app0: App, entries: Seq<File>, to: Seq<char>, app1: App) -> bool {
    &&& app1.wd.cwd@ == parent_of(to)
    &&& app1.wd.files@.to_multiset() == entries.to_multiset()
    &&& app1.displayed_files@ == app1.wd.files@
    &&& app1.flist_state.selected == select_target(app1.displayed_files@, to)
    &&& app1.input_mode == InputMode::Normal
    &&& app1.err_msg == app0.err_msg
    &&& app1.key_press == app0.key_press
    &&& app1.is_searching == app0.is_searching
    &&& app1.searching_for == app0.searching_for
}

/// The state after a completed delete: the snapshot refreshed, the deleted
/// entry dropped from the displayed list, and the cursor keeping its index
/// when still valid, clamping to the last entry, or emptying out with the
/// list; browsing mode returns.
pub open spec fn app_deleted(app0: App, entries: Seq<File>, app1: App) -> bool {
    &&& app1.wd.cwd == app0.wd.cwd
    &&& app1.wd.files@.to_multiset() == entries.to_multiset()
    &&& app1.input_mode == InputMode::Normal
    &&& app1.err_msg == app0.err_msg
    &&& app1.key_press == app0.key_press
    &&& app1.is_searching == app0.is_searching
    &&& app1.searching_for == app0.searching_for
    &&& match app0.flist_state.selected {
        Some(i) => {
            &&& app1.displayed_files@ == app0.displayed_files@.remove(i as int)
            &&& app1.flist_state.selected == (if app1.displayed_files@.len() == 0 {
                None::<usize>
            } else if (i as int) < app1.displayed_files@.len() {
                Some(i)
            } else {
                Some((app1.displayed_files@.len() - 1) as usize)
            })
        },
        None => app1.displayed_files@ == app1.wd.files@ && app1.flist_state.selected
            == reset_cursor(app1.wd.files@),
    }
}

/// Completes a mutation request: a failed mutation or refresh read shows its
/// message in error mode and changes nothing else; a successful one
/// refreshes the snapshot and applies the request's selection policy.
pub fn complete_mutation(
    app: &mut App,
    req: &FsRequest,
    outcome: Result<(), FsError>,
    refresh: Result<Vec<File>, FsError>,
)
    requires
        old(app).wf(),
    ensures
        final(app).wf(),
        match outcome {
            Err(e) => app_shows_error(*old(app), *final(app), e.spec_message()),
            Ok(_) => match refresh {
                Err(e) => app_shows_error(*old(app), *final(app), e.spec_message()),
                Ok(entries) => match *req {
                    FsRequest::Create { path, .. } => app_refreshed_selected(
                        *old(app),
                        entries@,
                        path@,
                        *final(app),
                    ),
                    FsRequest::Copy { to, .. } => app_refreshed_selected(
                        *old(app),
                        entries@,
                        to@,
                        *final(app),
                    ),
                    FsRequest::Rename { to, .. } => app_renamed(
                        *old(app),
                        entries@,
                        to@,
                        *final(app),
                    ),
                    FsRequest::Delete { .. } => app_deleted(*old(app), entries@, *final(app)),
                },
            },
        },
{
    match outcome {
        Err(e) => {
            let m = e.message();
            app.err(m.as_str());
            return ;
        },
        Ok(_) => {},
    }
    match refresh {
        Err(e) => {
            let m = e.message();
            app.err(m.as_str());
        },
        Ok(entries) => {
            match req {
                FsRequest::Create { path, .. } => {
                    app.wd.update(entries);
                    app.reset_displayed_files();
                    app.select_file(path.as_str());
                    app.to_normal_mode();
                },
                FsRequest::Copy { to, .. } => {
                    app.wd.update(entries);
                    app.reset_displayed_files();
                    app.select_file(to.as_str());
                    app.to_normal_mode();
                },
                FsRequest::Rename { to, .. } => {
                    let parent = path_parent(to.as_str());
                    if str_eq(parent.as_str(), app.wd.cwd().as_str()) {
                        app.wd.update(entries);
                    } else {
                        app.wd.set_cwd(parent, entries);
                    }
                    app.reset_displayed_files();
                    app.select_file(to.as_str());
                    app.to_normal_mode();
                },
                FsRequest::Delete { .. } => {
                    match app.flist_state.selected() {
                        Some(i) => {
                            let ghost old_d = app.displayed_files@;
                            app.wd.update(entries);
                            app.displayed_files.remove(i);
                            proof {
                                let new_d = app.displayed_files@;
                                assert forall|a: int, b: int|
                                    0 <= a < b < new_d.len() implies #[trigger] file_le(
                                    new_d[a],
                                    new_d[b],
                                ) by {
                                    let a0 = if a < i as int {
                                        a
                                    } else {
                                        a + 1
                                    };
                                    let b0 = if b < i as int {
                                        b
                                    } else {
                                        b + 1
                                    };
                                    assert(new_d[a] == old_d[a0] && new_d[b] == old_d[b0]);
                                    assert(file_le(old_d[a0], old_d[b0]));
                                }
                            }
                            let n = app.displayed_files.len();
                            if n == 0 {
                                app.flist_state.select(None);
                            } else if i < n {
                                app.flist_state.select(Some(i));
                            } else {
                                app.flist_state.select(Some(n - 1));
                            }
                            app.to_normal_mode();
                        },
                        None => {
                            app.wd.update(entries);
                            app.reset_displayed_files();
                            app.to_normal_mode();
                        },
                    }
                },
            }
        },
    }
}

} // verus!
