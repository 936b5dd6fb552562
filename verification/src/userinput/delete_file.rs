//! The delete command: confirmed only by a literal "y" or "Y"; deletes the
//! selected entry, recursively when it is a directory.

use vstd::prelude::*;

use crate::app::{App, InputMode};
use crate::filetype::FileType;
use crate::fsops::FsRequest;
use crate::text::str_eq;

verus! {

/// The answer that confirms a deletion: exactly "y" or "Y".
pub open spec fn is_yes(s: Seq<char>) -> bool {
    s == "y"@ || s == "Y"@
}

/// The delete prompt and the one-character answer typed so far.
#[derive(Debug)]
pub struct FileDelete {
    pub msg: String,
    pub input: String,
}

impl Default for FileDelete {
    /// A fresh confirmation prompt with an empty answer.
    fn default() -> (r: Self)
        ensures
            r.msg@ == " Are you sure you want to delete this [y/n]: "@,
            r.input@ == Seq::<char>::empty(),
    {
        FileDelete {
            msg: " Are you sure you want to delete this [y/n]: ".to_owned(),
            input: String::new(),
        }
    }
}

impl FileDelete {
    /// The prompt label.
    pub fn msg(&self) -> (r: &str)
        ensures
            r@ == self.msg@,
    {
        self.msg.as_str()
    }

    /// The answer typed so far.
    pub fn input(&self) -> (r: &str)
        ensures
            r@ == self.input@,
    {
        self.input.as_str()
    }

    /// Empties the answer.
    pub fn clear(&mut self)
        ensures
            final(self).input@ == Seq::<char>::empty(),
            final(self).msg == old(self).msg,
    {
        self.input = String::new();
    }

    /// One character typed: taken only while the answer is still empty, so
    /// the buffer never grows past one character.
    pub fn add_to_input(&mut self, ch: char)
        ensures
            final(self).msg == old(self).msg,
            old(self).input@.len() == 0 ==> final(self).input@ == old(self).input@.push(ch),
            old(self).input@.len() > 0 ==> final(self).input == old(self).input,
    {
        if self.input.as_str().is_empty() {
            self.input.push(ch);
        }
    }

    /// Backspace: shortens a non-empty answer; cancels the command back to
    /// browsing mode when the answer is already empty.
    pub fn del(&mut self, app: &mut App)
        ensures
            final(self).msg == old(self).msg,
            old(self).input@.len() > 0 ==> final(self).input@ == old(self).input@.drop_last()
                && *final(app) == *old(app),
            old(self).input@.len() == 0 ==> final(self).input == old(self).input && *final(app)
                == (App { input_mode: InputMode::Normal, ..*old(app) }),
    {
        if !self.input.as_str().is_empty() {
            self.input.pop();
        } else {
            app.to_normal_mode();
        }
    }

    /// Confirm: any answer but "y"/"Y" cancels without mutation; on "y"/"Y"
    /// the caller is asked to delete the selected entry, recursively when it
    /// is a directory. With nothing selected the confirmation reports an
    /// error instead.
    pub fn on_enter(&mut self, app: &mut App) -> (r: Option<FsRequest>)
        requires
            old(app).wf(),
        ensures
            final(app).wf(),
            *final(self) == *old(self),
            !is_yes(old(self).input@) ==> r is None && *final(app) == (App {
                input_mode: InputMode::Normal,
                ..*old(app)
            }),
            is_yes(old(self).input@) && old(app).spec_selected_file() is None ==> {
                &&& r is None
                &&& final(app).input_mode == InputMode::Error
                &&& final(app).err_msg@ == "No File selected"@
                &&& final(app).wd == old(app).wd
                &&& final(app).displayed_files == old(app).displayed_files
                &&& final(app).flist_state == old(app).flist_state
                &&& final(app).key_press == old(app).key_press
                &&& final(app).is_searching == old(app).is_searching
                &&& final(app).searching_for == old(app).searching_for
            },
            is_yes(old(self).input@) && old(app).spec_selected_file() is Some ==> *final(app)
                == *old(app) && match r {
                Some(FsRequest::Delete { path, recursive }) => {
                    &&& path@ == old(app).spec_selected_file()->Some_0.path@
                    &&& recursive == (old(app).spec_selected_file()->Some_0.ftype
                        == FileType::Directory)
                },
                _ => false,
            },
    {
        let yes = str_eq(self.input.as_str(), "y") || str_eq(self.input.as_str(), "Y");
        if !yes {
            app.to_normal_mode();
            return None;
        }
        let target: Option<(String, bool)> = match app.selected_file() {
            Some(f) => Some((f.path.clone(), matches!(f.ftype, FileType::Directory))),
            None => None,
        };
        match target {
            Some((path, recursive)) => Some(FsRequest::Delete { path, recursive }),
            None => {
                app.err("No File selected");
                None
            },
        }
    }
}

} // verus!
