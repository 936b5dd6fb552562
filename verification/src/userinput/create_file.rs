//! The create command: the buffer names a new file or directory, created
//! under the current directory on confirm.

use vstd::prelude::*;

use crate::app::{App, InputMode};
use crate::fsops::FsRequest;
use crate::paths::{join, path_join};

verus! {

/// The create prompt, the name typed so far, and whether a directory rather
/// than a regular file is being created.
#[derive(Debug)]
pub struct FileCreate {
    pub msg: String,
    pub input: String,
    pub creating_dir: bool,
}

impl Default for FileCreate {
    /// A fresh file-creation prompt with an empty buffer.
    fn default() -> (r: Self)
        ensures
            r.msg@ == " Create new file: "@,
            r.input@ == Seq::<char>::empty(),
            r.creating_dir == false,
    {
        FileCreate { msg: " Create new file: ".to_owned(), input: String::new(), creating_dir: false }
    }
}

impl FileCreate {
    /// Turns the command into directory creation.
    pub fn dir(self) -> (r: Self)
        ensures
            r.msg@ == " Create new directory: "@,
            r.input == self.input,
            r.creating_dir == true,
    {
        FileCreate { msg: " Create new directory: ".to_owned(), creating_dir: true, ..self }
    }

    /// The prompt label.
    pub fn msg(&self) -> (r: &str)
        ensures
            r@ == self.msg@,
    {
        self.msg.as_str()
    }

    /// The buffer typed so far.
    pub fn input(&self) -> (r: &str)
        ensures
            r@ == self.input@,
    {
        self.input.as_str()
    }

    /// Empties the buffer.
    pub fn clear(&mut self)
        ensures
            final(self).input@ == Seq::<char>::empty(),
            final(self).msg == old(self).msg,
            final(self).creating_dir == old(self).creating_dir,
    {
        self.input = String::new();
    }

    /// One character typed into the name.
    pub fn add_to_input(&mut self, ch: char)
        ensures
            final(self).input@ == old(self).input@.push(ch),
            final(self).msg == old(self).msg,
            final(self).creating_dir == old(self).creating_dir,
    {
        self.input.push(ch);
    }

    /// Backspace: shortens a non-empty buffer; cancels the command back to
    /// browsing mode when the buffer is already empty.
    pub fn del(&mut self, app: &mut App)
        ensures
            final(self).msg == old(self).msg,
            final(self).creating_dir == old(self).creating_dir,
            old(self).input@.len() > 0 ==> final(self).input@ == old(self).input@.drop_last()
                && *final(app) == *old(app),
            old(self).input@.len() == 0 ==> final(self).input == old(self).input && *final(app)
                == (App { input_mode: InputMode::Normal, ..*old(app) }),
    {
        if !self.input.as_str().is_empty() {
            self.input.pop();
        } else {
            app.to_normal_mode();
        }
    }

    /// Confirm: an empty name cancels back to browsing mode; otherwise the
    /// caller is asked to create the current directory joined with the name,
    /// as a directory or a regular file per the command's kind.
    pub fn on_enter(&mut self, app: &mut App) -> (r: Option<FsRequest>)
        ensures
            *final(self) == *old(self),
            old(self).input@.len() == 0 ==> r is None && *final(app) == (App {
                input_mode: InputMode::Normal,
                ..*old(app)
            }),
            old(self).input@.len() > 0 ==> *final(app) == *old(app) && match r {
                Some(FsRequest::Create { path, dir }) => {
                    &&& path@ == join(old(app).wd.cwd@, old(self).input@)
                    &&& dir == old(self).creating_dir
                },
                _ => false,
            },
    {
        if self.input.as_str().is_empty() {
            app.to_normal_mode();
            None
        } else {
            let path = path_join(app.wd.cwd().as_str(), self.input.as_str());
            Some(FsRequest::Create { path, dir: self.creating_dir })
        }
    }
}

} // verus!
