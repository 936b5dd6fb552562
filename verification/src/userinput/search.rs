//! The incremental search command: every keystroke re-filters the displayed
//! list by the prefix typed so far.

use vstd::prelude::*;

use crate::app::{filtered, reset_cursor, App, InputMode};

verus! {

/// The search prompt and the prefix typed so far.
#[derive(Debug)]
pub struct Search {
    pub msg: String,
    pub input: String,
}

impl Default for Search {
    /// A fresh search prompt with an empty buffer.
    fn default() -> (r: Self)
        ensures
            r.msg@ == "/"@,
            r.input@ == Seq::<char>::empty(),
    {
        Search { msg: "/".to_owned(), input: String::new() }
    }
}

impl Search {
    /// The prompt label.
    pub fn msg(&self) -> (r: &str)
        ensures
            r@ == self.msg@,
    {
        self.msg.as_str()
    }

    /// The buffer typed so far.
    pub fn input(&self) -> (r: &str)
        ensures
            r@ == self.input@,
    {
        self.input.as_str()
    }

    /// Empties the buffer.
    pub fn clear(&mut self)
        ensures
            final(self).input@ == Seq::<char>::empty(),
            final(self).msg == old(self).msg,
    {
        self.input = String::new();
    }

    /// One character typed: the buffer grows and the displayed list is
    /// re-filtered live by the new prefix, the cursor resetting.
    pub fn add_to_input(&mut self, ch: char, app: &mut App)
        requires
            old(app).wf(),
        ensures
            final(app).wf(),
            final(self).input@ == old(self).input@.push(ch),
            final(self).msg == old(self).msg,
            final(app).searching_for@ == final(self).input@,
            final(app).displayed_files@ == filtered(old(app).wd.files@, final(self).input@),
            final(app).flist_state.selected == reset_cursor(final(app).displayed_files@),
            final(app).wd == old(app).wd,
            final(app).input_mode == old(app).input_mode,
            final(app).err_msg == old(app).err_msg,
            final(app).key_press == old(app).key_press,
            final(app).is_searching == old(app).is_searching,
    {
        self.input.push(ch);
        app.update_displayed_files(Some(self.input.as_str()));
    }

    /// Backspace: with a non-empty buffer the last character goes and the
    /// filter follows live; with an empty buffer the command is cancelled
    /// and browsing mode returns.
    pub fn del(&mut self, app: &mut App)
        requires
            old(app).wf(),
        ensures
            final(app).wf(),
            final(self).msg == old(self).msg,
            old(self).input@.len() > 0 ==> {
                &&& final(self).input@ == old(self).input@.drop_last()
                &&& final(app).searching_for@ == final(self).input@
                &&& final(app).displayed_files@ == filtered(
                    old(app).wd.files@,
                    final(self).input@,
                )
                &&& final(app).flist_state.selected == reset_cursor(final(app).displayed_files@)
                &&& final(app).wd == old(app).wd
                &&& final(app).input_mode == old(app).input_mode
                &&& final(app).err_msg == old(app).err_msg
                &&& final(app).key_press == old(app).key_press
                &&& final(app).is_searching == old(app).is_searching
            },
            old(self).input@.len() == 0 ==> final(self).input == old(self).input && *final(app)
                == (App { input_mode: InputMode::Normal, ..*old(app) }),
    {
        if !self.input.as_str().is_empty() {
            self.input.pop();
            app.update_displayed_files(Some(self.input.as_str()));
        } else {
            app.to_normal_mode();
        }
    }

    /// Confirm: with entries displayed the filter stays and browsing mode
    /// returns; with none the filter is discarded and the no-match report
    /// shows as the error message.
    pub fn on_enter(&mut self, app: &mut App)
        requires
            old(app).wf(),
        ensures
            final(app).wf(),
            final(self).msg == old(self).msg,
            old(app).displayed_files@.len() == 0 ==> {
                &&& final(self).input@ == Seq::<char>::empty()
                &&& final(app).displayed_files@ == old(app).wd.files@
                &&& final(app).flist_state.selected == reset_cursor(old(app).wd.files@)
                &&& final(app).is_searching == false
                &&& final(app).searching_for@ == Seq::<char>::empty()
                &&& final(app).input_mode == InputMode::Error
                &&& final(app).err_msg@ == "No match"@
                &&& final(app).wd == old(app).wd
                &&& final(app).key_press == old(app).key_press
            },
            old(app).displayed_files@.len() > 0 ==> final(self).input == old(self).input
                && *final(app) == (App { input_mode: InputMode::Normal, ..*old(app) }),
    {
        if app.displayed_files.is_empty() {
            self.clear();
            app.end_input();
            app.err("No match");
        } else {
            app.to_normal_mode();
        }
    }
}

} // verus!
