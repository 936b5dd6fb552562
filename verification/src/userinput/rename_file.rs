//! The rename command: the buffer is pre-seeded with the selected entry's
//! absolute path and edited into the destination.

use vstd::prelude::*;

use crate::app::{App, InputMode};
use crate::file::File;
use crate::fsops::FsRequest;
use crate::text::str_eq;

verus! {

/// The rename prompt and the destination path being edited.
#[derive(Debug)]
pub struct FileRename {
    pub msg: String,
    pub input: String,
}

impl Default for FileRename {
    /// A fresh rename prompt with an empty buffer.
    fn default() -> (r: Self)
        ensures
            r.msg@ == " Rename file: "@,
            r.input@ == Seq::<char>::empty(),
    {
        FileRename { msg: " Rename file: ".to_owned(), input: String::new() }
    }
}

impl FileRename {
    /// Seeds the buffer with the entry's absolute path.
    pub fn file(self, f: &File) -> (r: Self)
        ensures
            r.msg == self.msg,
            r.input@ == self.input@ + f.path@,
    {
        let mut input = self.input;
        input.append(f.path.as_str());
        FileRename { msg: self.msg, input }
    }

    /// The prompt label.
    pub fn msg(&self) -> (r: &str)
        ensures
            r@ == self.msg@,
    {
        self.msg.as_str()
    }

    /// The buffer typed so far.
    pub fn input(&self) -> (r: &str)
        ensures
            r@ == self.input@,
    {
        self.input.as_str()
    }

    /// Empties the buffer.
    pub fn clear(&mut self)
        ensures
            final(self).input@ == Seq::<char>::empty(),
            final(self).msg == old(self).msg,
    {
        self.input = String::new();
    }

    /// One character typed into the destination.
    pub fn add_to_input(&mut self, ch: char)
        ensures
            final(self).input@ == old(self).input@.push(ch),
            final(self).msg == old(self).msg,
    {
        self.input.push(ch);
    }

    /// Backspace: shortens a non-empty buffer; cancels the command back to
    /// browsing mode when the buffer is already empty.
    pub fn del(&mut self, app: &mut App)
        ensures
            final(self).msg == old(self).msg,
            old(self).input@.len() > 0 ==> final(self).input@ == old(self).input@.drop_last()
                && *final(app) == *old(app),
            old(self).input@.len() == 0 ==> final(self).input == old(self).input && *final(app)
                == (App { input_mode: InputMode::Normal, ..*old(app) }),
    {
        if !self.input.as_str().is_empty() {
            self.input.pop();
        } else {
            app.to_normal_mode();
        }
    }

    /// Confirm: with nothing selected an error is reported; with the buffer
    /// still naming the selected entry's own path the command quietly ends;
    /// otherwise the caller is asked to rename the entry to the buffer.
    pub fn on_enter(&mut self, app: &mut App) -> (r: Option<FsRequest>)
        requires
            old(app).wf(),
        ensures
            final(app).wf(),
            *final(self) == *old(self),
            match old(app).spec_selected_file() {
                None => r is None && crate::app::app_shows_error(
                    *old(app),
                    *final(app),
                    "No File selected"@,
                ),
                Some(f) => if old(self).input@ == f.path@ {
                    r is None && crate::app::app_to_normal(*old(app), *final(app))
                } else {
                    *final(app) == *old(app) && match r {
                        Some(FsRequest::Rename { from, to }) => from@ == f.path@ && to@ == old(
                            self,
                        ).input@,
                        _ => false,
                    }
                },
            },
    {
        let from_opt: Option<String> = match app.selected_file() {
            Some(f) => Some(f.path.clone()),
            None => None,
        };
        match from_opt {
            None => {
                app.err("No File selected");
                None
            },
            Some(from) => {
                if str_eq(self.input.as_str(), from.as_str()) {
                    app.to_normal_mode();
                    None
                } else {
                    Some(FsRequest::Rename { from, to: self.input.clone() })
                }
            },
        }
    }
}

} // verus!
