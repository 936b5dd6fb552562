//! The user commands: search, create, delete, rename, copy. One command is
//! active while the browser prompts; keystrokes edit its buffer and confirm
//! either changes the state directly or asks the caller for one filesystem
//! mutation.

pub mod copy_file;
pub mod create_file;
pub mod delete_file;
pub mod rename_file;
pub mod search;

pub use copy_file::FileCopy;
pub use create_file::FileCreate;
pub use delete_file::is_yes;
pub use delete_file::FileDelete;
pub use rename_file::FileRename;
pub use search::Search;

use vstd::prelude::*;

use crate::app::{app_refiltered, app_shows_error, app_to_normal, reset_cursor, App, InputMode};
use crate::filetype::FileType;
use crate::fsops::FsRequest;
use crate::paths::join;

verus! {

/// The active command, selected when the prompt opens.
#[derive(Debug)]
pub enum Command {
    Search(Search),
    Delete(FileDelete),
    Create(FileCreate),
    Rename(FileRename),
    Copy(FileCopy),
}

/// What one typed character does: every command appends it to its buffer
/// (delete only while the answer is empty), and search alone re-filters the
/// displayed list live.
pub open spec fn add_post(c0: Command, app0: App, ch: char, c1: Command, app1: App) -> bool {
    match (c0, c1) {
        (Command::Search(s0), Command::Search(s1)) => {
            &&& s1.input@ == s0.input@.push(ch)
            &&& s1.msg == s0.msg
            &&& app_refiltered(app0, app1, s1.input@)
        },
        (Command::Delete(d0), Command::Delete(d1)) => {
            &&& d1.msg == d0.msg
            &&& if d0.input@.len() == 0 {
                d1.input@ == d0.input@.push(ch)
            } else {
                d1.input == d0.input
            }
            &&& app1 == app0
        },
        (Command::Create(c0), Command::Create(c1)) => {
            &&& c1.input@ == c0.input@.push(ch)
            &&& c1.msg == c0.msg
            &&& c1.creating_dir == c0.creating_dir
            &&& app1 == app0
        },
        (Command::Rename(r0), Command::Rename(r1)) => {
            &&& r1.input@ == r0.input@.push(ch)
            &&& r1.msg == r0.msg
            &&& app1 == app0
        },
        (Command::Copy(p0), Command::Copy(p1)) => {
            &&& p1.input@ == p0.input@.push(ch)
            &&& p1.msg == p0.msg
            &&& app1 == app0
        },
        _ => false,
    }
}

/// What backspace does: a non-empty buffer shrinks by one character (search
/// re-filters live); an empty buffer cancels the command back to browsing
/// mode.
pub open spec fn del_post(c0: Command, app0: App, c1: Command, app1: App) -> bool {
    match (c0, c1) {
        (Command::Search(s0), Command::Search(s1)) => {
            &&& s1.msg == s0.msg
            &&& if s0.input@.len() > 0 {
                s1.input@ == s0.input@.drop_last() && app_refiltered(app0, app1, s1.input@)
            } else {
                s1.input == s0.input && app_to_normal(app0, app1)
            }
        },
        (Command::Delete(d0), Command::Delete(d1)) => {
            &&& d1.msg == d0.msg
            &&& if d0.input@.len() > 0 {
                d1.input@ == d0.input@.drop_last() && app1 == app0
            } else {
                d1.input == d0.input && app_to_normal(app0, app1)
            }
        },
        (Command::Create(c0), Command::Create(c1)) => {
            &&& c1.msg == c0.msg
            &&& c1.creating_dir == c0.creating_dir
            &&& if c0.input@.len() > 0 {
                c1.input@ == c0.input@.drop_last() && app1 == app0
            } else {
                c1.input == c0.input && app_to_normal(app0, app1)
            }
        },
        (Command::Rename(r0), Command::Rename(r1)) => {
            &&& r1.msg == r0.msg
            &&& if r0.input@.len() > 0 {
                r1.input@ == r0.input@.drop_last() && app1 == app0
            } else {
                r1.input == r0.input && app_to_normal(app0, app1)
            }
        },
        (Command::Copy(p0), Command::Copy(p1)) => {
            &&& p1.msg == p0.msg
            &&& if p0.input@.len() > 0 {
                p1.input@ == p0.input@.drop_last() && app1 == app0
            } else {
                p1.input == p0.input && app_to_normal(app0, app1)
            }
        },
        _ => false,
    }
}

/// What confirm does, per command. Search keeps a filter that matched and
/// reports "No match" otherwise; create asks for its target unless the name
/// is empty; delete asks only on a literal "y"/"Y"; rename and copy ask
/// unless the destination equals the source, and report an error with
/// nothing selected. Where a request is returned, the state waits unchanged
/// for the outcome.
pub open spec fn confirm_post(
    c0: Command,
    app0: App,
    c1: Command,
    app1: App,
    r: Option<FsRequest>,
) -> bool {
    match (c0, c1) {
        (Command::Search(s0), Command::Search(s1)) => {
            &&& s1.msg == s0.msg
            &&& r is None
            &&& if app0.displayed_files@.len() == 0 {
                &&& s1.input@ == Seq::<char>::empty()
                &&& app1.displayed_files@ == app0.wd.files@
                &&& app1.flist_state.selected == reset_cursor(app0.wd.files@)
                &&& app1.is_searching == false
                &&& app1.searching_for@ == Seq::<char>::empty()
                &&& app1.input_mode == InputMode::Error
                &&& app1.err_msg@ == "No match"@
                &&& app1.wd == app0.wd
                &&& app1.key_press == app0.key_press
            } else {
                s1.input == s0.input && app_to_normal(app0, app1)
            }
        },
        (Command::Delete(d0), Command::Delete(d1)) => {
            &&& d1 == d0
            &&& if !is_yes(d0.input@) {
                r is None && app_to_normal(app0, app1)
            } else {
                match app0.spec_selected_file() {
                    None => r is None && app_shows_error(app0, app1, "No File selected"@),
                    Some(f) => app1 == app0 && match r {
                        Some(FsRequest::Delete { path, recursive }) => path@ == f.path@
                            && recursive == (f.ftype == FileType::Directory),
                        _ => false,
                    },
                }
            }
        },
        (Command::Create(c0), Command::Create(c1)) => {
            &&& c1 == c0
            &&& if c0.input@.len() == 0 {
                r is None && app_to_normal(app0, app1)
            } else {
                app1 == app0 && match r {
                    Some(FsRequest::Create { path, dir }) => path@ == join(
                        app0.wd.cwd@,
                        c0.input@,
                    ) && dir == c0.creating_dir,
                    _ => false,
                }
            }
        },
        (Command::Rename(r0), Command::Rename(r1)) => {
            &&& r1 == r0
            &&& match app0.spec_selected_file() {
                None => r is None && app_shows_error(app0, app1, "No File selected"@),
                Some(f) => if r0.input@ == f.path@ {
                    r is None && app_to_normal(app0, app1)
                } else {
                    app1 == app0 && match r {
                        Some(FsRequest::Rename { from, to }) => from@ == f.path@ && to@
                            == r0.input@,
                        _ => false,
                    }
                },
            }
        },
        (Command::Copy(p0), Command::Copy(p1)) => {
            &&& p1 == p0
            &&& match app0.spec_selected_file() {
                None => r is None && app_shows_error(app0, app1, "No File selected"@),
                Some(f) => if p0.input@ == f.path@ {
                    r is None && app_to_normal(app0, app1)
                } else {
                    app1 == app0 && match r {
                        Some(FsRequest::Copy { from, to }) => from@ == f.path@ && to@
                            == p0.input@,
                        _ => false,
                    }
                },
            }
        },
        _ => false,
    }
}

/// The buffer emptied, everything else about the command kept.
pub open spec fn clear_post(c0: Command, c1: Command) -> bool {
    match (c0, c1) {
        (Command::Search(s0), Command::Search(s1)) => s1.msg == s0.msg && s1.input@
            == Seq::<char>::empty(),
        (Command::Delete(d0), Command::Delete(d1)) => d1.msg == d0.msg && d1.input@
            == Seq::<char>::empty(),
        (Command::Create(c0), Command::Create(c1)) => c1.msg == c0.msg && c1.creating_dir
            == c0.creating_dir && c1.input@ == Seq::<char>::empty(),
        (Command::Rename(r0), Command::Rename(r1)) => r1.msg == r0.msg && r1.input@
            == Seq::<char>::empty(),
        (Command::Copy(p0), Command::Copy(p1)) => p1.msg == p0.msg && p1.input@
            == Seq::<char>::empty(),
        _ => false,
    }
}

impl Command {
    /// The active command's prompt label.
    pub open spec fn spec_msg(self) -> Seq<char> {
        match self {
            Command::Search(s) => s.msg@,
            Command::Delete(d) => d.msg@,
            Command::Create(c) => c.msg@,
            Command::Rename(r) => r.msg@,
            Command::Copy(p) => p.msg@,
        }
    }

    /// The active command's buffer.
    pub open spec fn spec_input(self) -> Seq<char> {
        match self {
            Command::Search(s) => s.input@,
            Command::Delete(d) => d.input@,
            Command::Create(c) => c.input@,
            Command::Rename(r) => r.input@,
            Command::Copy(p) => p.input@,
        }
    }

    /// The prompt label.
    pub fn msg(&self) -> (r: &str)
        ensures
            r@ == self.spec_msg(),
    {
        match self {
            Command::Search(s) => s.msg(),
            Command::Delete(d) => d.msg(),
            Command::Create(c) => c.msg(),
            Command::Rename(rn) => rn.msg(),
            Command::Copy(p) => p.msg(),
        }
    }

    /// The buffer typed so far.
    pub fn input(&self) -> (r: &str)
        ensures
            r@ == self.spec_input(),
    {
        match self {
            Command::Search(s) => s.input(),
            Command::Delete(d) => d.input(),
            Command::Create(c) => c.input(),
            Command::Rename(rn) => rn.input(),
            Command::Copy(p) => p.input(),
        }
    }

    /// The prompt line shown while editing: the label followed by the
    /// buffer.
    pub fn output(&self) -> (r: String)
        ensures
            r@ == self.spec_msg() + self.spec_input(),
    {
        let mut s = self.msg().to_owned();
        s.append(self.input());
        s
    }

    /// Empties the buffer.
    pub fn clear(&mut self)
        ensures
            clear_post(*old(self), *final(self)),
    {
        match self {
            Command::Search(s) => s.clear(),
            Command::Delete(d) => d.clear(),
            Command::Create(c) => c.clear(),
            Command::Rename(rn) => rn.clear(),
            Command::Copy(p) => p.clear(),
        }
    }

    /// One character typed while prompting.
    pub fn add_to_input(&mut self, ch: char, app: &mut App)
        requires
            old(app).wf(),
        ensures
            final(app).wf(),
            add_post(*old(self), *old(app), ch, *final(self), *final(app)),
    {
        match self {
            Command::Search(s) => s.add_to_input(ch, app),
            Command::Delete(d) => d.add_to_input(ch),
            Command::Create(c) => c.add_to_input(ch),
            Command::Rename(rn) => rn.add_to_input(ch),
            Command::Copy(p) => p.add_to_input(ch),
        }
    }

    /// Backspace while prompting.
    pub fn del(&mut self, app: &mut App)
        requires
            old(app).wf(),
        ensures
            final(app).wf(),
            del_post(*old(self), *old(app), *final(self), *final(app)),
    {
        match self {
            Command::Search(s) => s.del(app),
            Command::Delete(d) => d.del(app),
            Command::Create(c) => c.del(app),
            Command::Rename(rn) => rn.del(app),
            Command::Copy(p) => p.del(app),
        }
    }

    /// Confirm: either the state changes directly, or one filesystem
    /// request comes back for the caller to carry out.
    pub fn on_enter(&mut self, app: &mut App) -> (r: Option<FsRequest>)
        requires
            old(app).wf(),
        ensures
            final(app).wf(),
            confirm_post(*old(self), *old(app), *final(self), *final(app), r),
    {
        match self {
            Command::Search(s) => {
                s.on_enter(app);
                None
            },
            Command::Delete(d) => d.on_enter(app),
            Command::Create(c) => c.on_enter(app),
            Command::Rename(rn) => rn.on_enter(app),
            Command::Copy(p) => p.on_enter(app),
        }
    }
}

} // verus!
