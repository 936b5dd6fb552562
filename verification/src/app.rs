//! The navigation state: one directory snapshot, the (possibly filtered)
//! displayed list, a selection cursor that is always in bounds, the input
//! mode, and the transient search and error buffers.

use vstd::pervasive::unreached;
use vstd::prelude::*;

use crate::file::{file_le, files_sorted, File};
use crate::text::{is_prefix, str_eq, str_starts_with};
use crate::workingdir::WorkingDir;

verus! {

/// Which regime keystrokes are interpreted in: browsing (`Normal`), building
/// a command buffer (`Editing`), showing an error until the next key
/// (`Error`), or the reserved visual mode.
#[derive(Debug, PartialEq, Eq, Clone, Copy, Structural)]
pub enum InputMode {
    Normal,
    Editing,
    Error,
    Visual,
}

/// The selection cursor: an index into the displayed list, or nothing.
#[derive(Debug, Clone, Copy)]
pub struct ListState {
    pub selected: Option<usize>,
}

impl ListState {
    /// A cursor pointing at nothing.
    pub fn new() -> (r: ListState)
        ensures
            r.selected is None,
    {
        ListState { selected: None }
    }

    /// Moves the cursor.
    pub fn select(&mut self, s: Option<usize>)
        ensures
            final(self).selected == s,
    {
        self.selected = s;
    }

    /// Where the cursor stands.
    pub fn selected(&self) -> (r: Option<usize>)
        ensures
            r == self.selected,
    {
        self.selected
    }
}

/// The entry with its transient mark replaced.
pub open spec fn with_mark(f: File, sel: bool) -> File {
    File { is_selected: sel, ..f }
}

/// The entries whose names carry `needle` as a prefix, in their given order.
pub open spec fn filtered(files: Seq<File>, needle: Seq<char>) -> Seq<File> {
    files.filter(|f: File| is_prefix(needle, f.name@))
}

/// Where the cursor stands after the displayed list is replaced: its first
/// entry, or nothing when the list is empty.
pub open spec fn reset_cursor(displayed: Seq<File>) -> Option<usize> {
    if displayed.len() == 0 {
        None
    } else {
        Some(0usize)
    }
}

/// The first index at or after `i` whose entry has path `p`, or -1.
pub open spec fn find_path_from(s: Seq<File>, p: Seq<char>, i: int) -> int
    decreases s.len() - i,
{
    if i < 0 || i >= s.len() {
        -1
    } else if s[i].path@ == p {
        i
    } else {
        find_path_from(s, p, i + 1)
    }
}

/// Filtering keeps the name order.
pub proof fn lemma_filter_sorted(s: Seq<File>, needle: Seq<char>)
    requires
        files_sorted(s),
    ensures
        files_sorted(filtered(s, needle)),
    decreases s.len(),
{
    reveal(Seq::filter);
    let p = |f: File| is_prefix(needle, f.name@);
    if s.len() > 0 {
        let rest = s.drop_last();
        assert(files_sorted(rest));
        lemma_filter_sorted(rest, needle);
        let sub = rest.filter(p);
        assert forall|k: int| 0 <= k < sub.len() implies #[trigger] file_le(sub[k], s.last()) by {
            rest.lemma_filter_contains_rev(p, sub[k]);
            let j = choose|j: int| 0 <= j < rest.len() && rest[j] == sub[k];
            if j < s.len() - 1 {
                assert(s[j] == rest[j]);
                assert(file_le(s[j], s[s.len() - 1]));
            }
        }
        if p(s.last()) {
            assert(s.filter(p) == sub.push(s.last()));
            assert(files_sorted(sub.push(s.last())));
        }
    }
}

/// Copies a listing entry by entry.
pub fn copy_files(v: &[File]) -> (r: Vec<File>)
    ensures
        r@ == v@,
{
    let n = v.len();
    let mut out: Vec<File> = Vec::new();
    let mut i: usize = 0;
    while i < n
        invariant
            i <= n,
            n == v@.len(),
            out@ =~= v@.take(i as int),
        decreases n - i,
    {
        let f = v[i].clone();
        out.push(f);
        proof {
            assert(out@ =~= v@.take(i as int + 1));
        }
        i = i + 1;
    }
    proof {
        assert(v@.take(n as int) =~= v@);
    }
    out
}

/// Keeps the entries whose names carry `needle` as a prefix.
fn filter_files(v: &[File], needle: &str) -> (r: Vec<File>)
    ensures
        r@ == filtered(v@, needle@),
{
    let n = v.len();
    let mut out: Vec<File> = Vec::new();
    let mut i: usize = 0;
    proof {
        reveal(Seq::filter);
        assert(out@ =~= filtered(v@.take(0), needle@));
    }
    while i < n
        invariant
            i <= n,
            n == v@.len(),
            out@ == filtered(v@.take(i as int), needle@),
        decreases n - i,
    {
        let ghost p = |f: File| is_prefix(needle@, f.name@);
        let keep = str_starts_with(v[i].name.as_str(), needle);
        proof {
            assert(v@.take(i as int + 1) =~= v@.take(i as int).push(v@[i as int]));
            v@.take(i as int).lemma_filter_push(v@[i as int], p);
        }
        if keep {
            let f = v[i].clone();
            out.push(f);
        }
        i = i + 1;
    }
    proof {
        assert(v@.take(n as int) =~= v@);
    }
    out
}

/// The state turned to browsing mode, nothing else changed.
pub open spec fn app_to_normal(app0: App, app1: App) -> bool {
    app1 == (App { input_mode: InputMode::Normal, ..app0 })
}

/// The state showing an error: the message replaced, error mode entered,
/// everything else unchanged.
pub open spec fn app_shows_error(app0: App, app1: App, msg: Seq<char>) -> bool {
    &&& app1.input_mode == InputMode::Error
    &&& app1.err_msg@ == msg
    &&& app1.wd == app0.wd
    &&& app1.displayed_files == app0.displayed_files
    &&& app1.flist_state == app0.flist_state
    &&& app1.key_press == app0.key_press
    &&& app1.is_searching == app0.is_searching
    &&& app1.searching_for == app0.searching_for
}

/// The state re-filtered live by a search prefix: the displayed list is the
/// snapshot filtered by `needle`, the cursor reset, the prefix stored.
pub open spec fn app_refiltered(app0: App, app1: App, needle: Seq<char>) -> bool {
    &&& app1.searching_for@ == needle
    &&& app1.displayed_files@ == filtered(app0.wd.files@, needle)
    &&& app1.flist_state.selected == reset_cursor(app1.displayed_files@)
    &&& app1.wd == app0.wd
    &&& app1.input_mode == app0.input_mode
    &&& app1.err_msg == app0.err_msg
    &&& app1.key_press == app0.key_press
    &&& app1.is_searching == app0.is_searching
}

/// Law: in every consistent state the displayed list and the snapshot stand
/// in name order — a strict total order between distinct keys (see
/// `lemma_seq_le_total`, `lemma_seq_le_trans` and `lemma_seq_le_antisym` on
/// the underlying character order).
pub proof fn lemma_displayed_sorted(app: App)
    requires
        app.wf(),
    ensures
        files_sorted(app.displayed_files@),
        files_sorted(app.wd.files@),
{
}

/// Law: the cursor never leaves the displayed list: it points at nothing or
/// at an index below the displayed length.
pub proof fn lemma_cursor_in_bounds(app: App)
    requires
        app.wf(),
    ensures
        match app.flist_state.selected {
            Some(i) => i < app.displayed_files@.len(),
            None => true,
        },
{
}

/// The state of the browser between two events.
#[derive(Debug)]
pub struct App {
    /// How the next keystroke will be interpreted.
    pub input_mode: InputMode,
    /// The pending multi-key chord (the doubled jump-to-first key).
    pub key_press: String,
    /// The snapshot of the current directory.
    pub wd: WorkingDir,
    /// The entries offered for selection: the snapshot, optionally filtered.
    pub displayed_files: Vec<File>,
    /// The selection cursor into the displayed entries.
    pub flist_state: ListState,
    /// The message shown while in error mode.
    pub err_msg: String,
    /// Whether a search filter is active or being edited.
    pub is_searching: bool,
    /// The prefix the displayed entries are filtered by.
    pub searching_for: String,
}

impl App {
    /// The cursor, when present, stays inside the displayed list.
    pub open spec fn cursor_ok(self) -> bool {
        match self.flist_state.selected {
            Some(i) => i < self.displayed_files@.len(),
            None => true,
        }
    }

    /// The state's internal consistency: a well-formed snapshot, displayed
    /// entries in name order, and an in-bounds cursor.
    pub open spec fn wf(self) -> bool {
        &&& self.wd.wf()
        &&& files_sorted(self.displayed_files@)
        &&& self.cursor_ok()
    }

    /// The index the selection falls on: the cursor, or the first entry when
    /// the cursor points at nothing but entries are displayed.
    pub open spec fn spec_selected_index(self) -> Option<int> {
        match self.flist_state.selected {
            Some(i) => Some(i as int),
            None => if self.displayed_files@.len() > 0 {
                Some(0int)
            } else {
                None
            },
        }
    }

    /// The entry the selection falls on.
    pub open spec fn spec_selected_file(self) -> Option<File> {
        match self.spec_selected_index() {
            Some(i) => Some(self.displayed_files@[i]),
            None => None,
        }
    }

    /// Replaces the error message and turns to error mode.
    pub fn err(&mut self, msg: &str)
        ensures
            final(self).err_msg@ == msg@,
            final(self).input_mode == InputMode::Error,
            final(self).wd == old(self).wd,
            final(self).displayed_files == old(self).displayed_files,
            final(self).flist_state == old(self).flist_state,
            final(self).key_press == old(self).key_press,
            final(self).is_searching == old(self).is_searching,
            final(self).searching_for == old(self).searching_for,
    {
        self.err_msg = msg.to_owned();
        self.to_error_mode();
    }

    /// Turns to browsing mode.
    pub fn to_normal_mode(&mut self)
        ensures
            *final(self) == (App { input_mode: InputMode::Normal, ..*old(self) }),
    {
        self.input_mode = InputMode::Normal;
    }

    /// Turns to command-editing mode.
    pub fn to_editing_mode(&mut self)
        ensures
            *final(self) == (App { input_mode: InputMode::Editing, ..*old(self) }),
    {
        self.input_mode = InputMode::Editing;
    }

    fn to_error_mode(&mut self)
        ensures
            *final(self) == (App { input_mode: InputMode::Error, ..*old(self) }),
    {
        self.input_mode = InputMode::Error;
    }

    /// Recomputes the cursor for a freshly replaced displayed list: its
    /// first entry, or nothing when it is empty.
    pub fn new_list_state(&mut self)
        ensures
            *final(self) == (App {
                flist_state: ListState { selected: reset_cursor(old(self).displayed_files@) },
                ..*old(self)
            }),
    {
        self.flist_state = ListState::new();
        if self.displayed_files.is_empty() {
            self.flist_state.select(None);
        } else {
            self.flist_state.select(Some(0));
        }
    }

    /// Restores the defaults of a fresh listing: cursor reset, search
    /// cleared.
    pub fn new_ctx(&mut self)
        ensures
            *final(self) == (App {
                flist_state: ListState { selected: reset_cursor(old(self).displayed_files@) },
                is_searching: false,
                searching_for: final(self).searching_for,
                ..*old(self)
            }),
            final(self).searching_for@ == Seq::<char>::empty(),
    {
        self.new_list_state();
        self.is_searching = false;
        self.searching_for = String::new();
    }

    /// Ends any command input: the full snapshot is displayed again, the
    /// search is discarded, the cursor resets, and browsing mode returns.
    pub fn end_input(&mut self)
        requires
            old(self).wf(),
        ensures
            final(self).wf(),
            final(self).displayed_files@ == old(self).wd.files@,
            final(self).input_mode == InputMode::Normal,
            final(self).flist_state.selected == reset_cursor(old(self).wd.files@),
            final(self).is_searching == false,
            final(self).searching_for@ == Seq::<char>::empty(),
            final(self).wd == old(self).wd,
            final(self).err_msg == old(self).err_msg,
            final(self).key_press == old(self).key_press,
    {
        let d = copy_files(self.wd.files());
        self.displayed_files = d;
        self.to_normal_mode();
        self.new_ctx();
    }

    /// Clears the transient mark of every displayed entry.
    pub fn clear_selection(&mut self)
        requires
            old(self).wf(),
        ensures
            final(self).wf(),
            final(self).displayed_files@ =~= old(self).displayed_files@.map_values(
                |f: File| with_mark(f, false),
            ),
            final(self).wd == old(self).wd,
            final(self).flist_state == old(self).flist_state,
            final(self).input_mode == old(self).input_mode,
            final(self).err_msg == old(self).err_msg,
            final(self).key_press == old(self).key_press,
            final(self).is_searching == old(self).is_searching,
            final(self).searching_for == old(self).searching_for,
    {
        let ghost old_d = self.displayed_files@;
        let n = self.displayed_files.len();
        let mut out: Vec<File> = Vec::new();
        let mut i: usize = 0;
        while i < n
            invariant
                i <= n,
                n == old_d.len(),
                self.displayed_files@ == old_d,
                out@ =~= old_d.take(i as int).map_values(|f: File| with_mark(f, false)),
            decreases n - i,
        {
            let f = self.displayed_files[i].with_selected(false);
            out.push(f);
            proof {
                assert(old_d.take(i as int + 1) =~= old_d.take(i as int).push(old_d[i as int]));
                assert(out@ =~= old_d.take(i as int + 1).map_values(
                    |f: File| with_mark(f, false),
                ));
            }
            i = i + 1;
        }
        proof {
            assert(old_d.take(n as int) =~= old_d);
        }
        self.displayed_files = out;
        proof {
            let new_d = self.displayed_files@;
            assert forall|a: int, b: int| 0 <= a < b < new_d.len() implies #[trigger] file_le(
                new_d[a],
                new_d[b],
            ) by {
                assert(file_le(old_d[a], old_d[b]));
                assert(new_d[a].name == old_d[a].name);
                assert(new_d[b].name == old_d[b].name);
            }
        }
    }

    /// Replaces the displayed list with the snapshot filtered by `needle`
    /// when one is given, by the stored search prefix while one is active,
    /// and with the full snapshot otherwise; the cursor resets.
    pub fn update_displayed_files(&mut self, needle: Option<&str>)
        requires
            old(self).wf(),
        ensures
            final(self).wf(),
            match needle {
                Some(n) => {
                    &&& final(self).searching_for@ == n@
                    &&& final(self).displayed_files@ == filtered(old(self).wd.files@, n@)
                },
                None => {
                    &&& final(self).searching_for == old(self).searching_for
                    &&& final(self).displayed_files@ == if old(self).searching_for@.len() > 0 {
                        filtered(old(self).wd.files@, old(self).searching_for@)
                    } else {
                        old(self).wd.files@
                    }
                },
            },
            final(self).flist_state.selected == reset_cursor(final(self).displayed_files@),
            final(self).wd == old(self).wd,
            final(self).input_mode == old(self).input_mode,
            final(self).err_msg == old(self).err_msg,
            final(self).key_press == old(self).key_press,
            final(self).is_searching == old(self).is_searching,
    {
        match needle {
            Some(n) => {
                self.searching_for = n.to_owned();
                let d = filter_files(self.wd.files(), n);
                self.displayed_files = d;
                proof {
                    lemma_filter_sorted(self.wd.files@, n@);
                }
            },
            None => {
                if !self.searching_for.as_str().is_empty() {
                    let d = filter_files(self.wd.files(), self.searching_for.as_str());
                    self.displayed_files = d;
                    proof {
                        lemma_filter_sorted(self.wd.files@, self.searching_for@);
                    }
                } else {
                    let d = copy_files(self.wd.files());
                    self.displayed_files = d;
                }
            },
        }
        self.new_list_state();
    }

    /// Displays the full snapshot again; the cursor resets.
    pub fn reset_displayed_files(&mut self)
        requires
            old(self).wf(),
        ensures
            final(self).wf(),
            final(self).displayed_files@ == old(self).wd.files@,
            final(self).flist_state.selected == reset_cursor(old(self).wd.files@),
            final(self).wd == old(self).wd,
            final(self).input_mode == old(self).input_mode,
            final(self).err_msg == old(self).err_msg,
            final(self).key_press == old(self).key_press,
            final(self).is_searching == old(self).is_searching,
            final(self).searching_for == old(self).searching_for,
    {
        let d = copy_files(self.wd.files());
        self.displayed_files = d;
        self.new_list_state();
    }

    /// Best-effort re-selection of a target path: the cursor moves to the
    /// first displayed entry with that path, to the first entry when none
    /// matches, and to nothing when the list is empty.
    pub fn select_file(&mut self, needle: &str)
        requires
            old(self).wf(),
        ensures
            final(self).wf(),
            *final(self) == (App { flist_state: final(self).flist_state, ..*old(self) }),
            final(self).flist_state.selected == {
                let k = find_path_from(old(self).displayed_files@, needle@, 0);
                if old(self).displayed_files@.len() == 0 {
                    None::<usize>
                } else if k >= 0 {
                    Some(k as usize)
                } else {
                    Some(0usize)
                }
            },
    {
        let ghost d = self.displayed_files@;
        let n = self.displayed_files.len();
        let mut i: usize = 0;
        while i < n
            invariant
                i <= n,
                n == d.len(),
                *self == *old(self),
                old(self).wf(),
                d == old(self).displayed_files@,
                find_path_from(d, needle@, 0) == find_path_from(d, needle@, i as int),
            decreases n - i,
        {
            if str_eq(self.displayed_files[i].path.as_str(), needle) {
                self.flist_state.select(Some(i));
                return ;
            }
            i = i + 1;
        }
        proof {
            assert(find_path_from(d, needle@, n as int) == -1);
        }
        if self.displayed_files.is_empty() {
            self.flist_state.select(None);
        } else {
            self.flist_state.select(Some(0));
        }
    }

    /// Descends the snapshot into the selected entry's path, whose entries
    /// the caller has read; the listing and search reset. Refused by the
    /// snapshot while the current directory is empty.
    pub fn wd_forward(&mut self, entries: Vec<File>)
        requires
            old(self).wf(),
            old(self).spec_selected_file() is Some,
        ensures
            final(self).wf(),
            old(self).wd.files@.len() > 0 ==> final(self).wd.cwd@ == old(
                self,
            ).spec_selected_file()->Some_0.path@ && final(self).wd.files@.to_multiset()
                == entries@.to_multiset(),
            old(self).wd.files@.len() == 0 ==> final(self).wd == old(self).wd,
            final(self).displayed_files@ == final(self).wd.files@,
            final(self).flist_state.selected == reset_cursor(final(self).wd.files@),
            final(self).is_searching == false,
            final(self).searching_for@ == Seq::<char>::empty(),
            final(self).input_mode == old(self).input_mode,
            final(self).err_msg == old(self).err_msg,
            final(self).key_press == old(self).key_press,
    {
        let path = match self.selected_file() {
            Some(f) => f.path.clone(),
            None => unreached(),
        };
        self.wd.forward(path.as_str(), entries);
        let d = copy_files(self.wd.files());
        self.displayed_files = d;
        self.new_ctx();
    }

    /// Ascends the snapshot to the parent directory, whose entries the
    /// caller has read; a no-op at the filesystem root, otherwise the
    /// listing and search reset.
    pub fn wd_back(&mut self, entries: Vec<File>)
        requires
            old(self).wf(),
        ensures
            final(self).wf(),
            crate::paths::is_root(old(self).wd.cwd@) ==> *final(self) == *old(self),
            !crate::paths::is_root(old(self).wd.cwd@) ==> {
                &&& final(self).wd.cwd@ == crate::paths::parent_of(old(self).wd.cwd@)
                &&& final(self).wd.files@.to_multiset() == entries@.to_multiset()
                &&& final(self).displayed_files@ == final(self).wd.files@
                &&& final(self).flist_state.selected == reset_cursor(final(self).wd.files@)
                &&& final(self).is_searching == false
                &&& final(self).searching_for@ == Seq::<char>::empty()
                &&& final(self).input_mode == old(self).input_mode
                &&& final(self).err_msg == old(self).err_msg
                &&& final(self).key_press == old(self).key_press
            },
    {
        if self.wd.back(entries) {
            let d = copy_files(self.wd.files());
            self.displayed_files = d;
            self.new_ctx();
        }
    }

    /// The selected entry: the one under the cursor, or the first displayed
    /// entry when the cursor points at nothing, or nothing at all when the
    /// list is empty.
    pub fn selected_file(&self) -> (r: Option<&File>)
        requires
            self.wf(),
        ensures
            match r {
                Some(f) => self.spec_selected_file() == Some(*f),
                None => self.spec_selected_file() is None,
            },
    {
        match self.flist_state.selected() {
            Some(i) => Some(&self.displayed_files[i]),
            None => {
                if !self.displayed_files.is_empty() {
                    Some(&self.displayed_files[0])
                } else {
                    None
                }
            },
        }
    }

    /// A fresh browser over the directory at `cwd`, whose entries the
    /// caller has read.
    pub fn new(cwd: String, entries: Vec<File>) -> (r: App)
        ensures
            r.wf(),
            r.wd.cwd@ == cwd@,
            r.wd.files@.to_multiset() == entries@.to_multiset(),
            r.displayed_files@ == r.wd.files@,
            r.flist_state.selected == reset_cursor(r.wd.files@),
            r.input_mode == InputMode::Normal,
            r.err_msg@ == Seq::<char>::empty(),
            r.key_press@ == Seq::<char>::empty(),
            r.is_searching == false,
            r.searching_for@ == Seq::<char>::empty(),
    {
        let wd = WorkingDir::new(cwd, entries);
        let displayed_files = copy_files(wd.files());
        let mut flist_state = ListState::new();
        if !displayed_files.is_empty() {
            flist_state.select(Some(0));
        }
        App {
            input_mode: InputMode::Normal,
            key_press: String::new(),
            wd,
            displayed_files,
            flist_state,
            err_msg: String::new(),
            is_searching: false,
            searching_for: String::new(),
        }
    }

    /// Moves the cursor one entry down, wrapping from the last entry to the
    /// first; nothing moves while nothing is selected.
    pub fn cursor_down(&mut self)
        requires
            old(self).wf(),
        ensures
            final(self).wf(),
            *final(self) == (App { flist_state: final(self).flist_state, ..*old(self) }),
            final(self).flist_state.selected == match old(self).flist_state.selected {
                Some(i) => if i as int >= old(self).displayed_files@.len() - 1 {
                    Some(0usize)
                } else {
                    Some((i + 1) as usize)
                },
                None => None::<usize>,
            },
    {
        if let Some(selected) = self.flist_state.selected() {
            let num_files = self.displayed_files.len();
            if selected >= num_files - 1 {
                self.flist_state.select(Some(0));
            } else {
                self.flist_state.select(Some(selected + 1));
            }
        }
    }

    /// Moves the cursor one entry up, stopping at the first; nothing moves
    /// while nothing is selected.
    pub fn cursor_up(&mut self)
        requires
            old(self).wf(),
        ensures
            final(self).wf(),
            *final(self) == (App { flist_state: final(self).flist_state, ..*old(self) }),
            final(self).flist_state.selected == match old(self).flist_state.selected {
                Some(i) => if i > 0 {
                    Some((i - 1) as usize)
                } else {
                    Some(0usize)
                },
                None => None::<usize>,
            },
    {
        if let Some(selected) = self.flist_state.selected() {
            if selected > 0 {
                self.flist_state.select(Some(selected - 1));
            } else {
                self.flist_state.select(Some(0));
            }
        }
    }

    /// Moves the cursor to the first displayed entry, or to nothing when the
    /// list is empty.
    pub fn cursor_first(&mut self)
        requires
            old(self).wf(),
        ensures
            final(self).wf(),
            *final(self) == (App { flist_state: final(self).flist_state, ..*old(self) }),
            final(self).flist_state.selected == reset_cursor(old(self).displayed_files@),
    {
        if self.displayed_files.is_empty() {
            self.flist_state.select(None);
        } else {
            self.flist_state.select(Some(0));
        }
    }

    /// Moves the cursor to the last displayed entry, or to nothing when the
    /// list is empty.
    pub fn cursor_last(&mut self)
        requires
            old(self).wf(),
        ensures
            final(self).wf(),
            *final(self) == (App { flist_state: final(self).flist_state, ..*old(self) }),
            final(self).flist_state.selected == if old(self).displayed_files@.len() == 0 {
                None::<usize>
            } else {
                Some((old(self).displayed_files@.len() - 1) as usize)
            },
    {
        let n = self.displayed_files.len();
        if n == 0 {
            self.flist_state.select(None);
        } else {
            self.flist_state.select(Some(n - 1));
        }
    }

    /// Toggles the transient mark of the selected entry; nothing changes
    /// when the list is empty.
    pub fn toggle_mark(&mut self)
        requires
            old(self).wf(),
        ensures
            final(self).wf(),
            *final(self) == (App {
                displayed_files: final(self).displayed_files,
                ..*old(self)
            }),
            match old(self).spec_selected_index() {
                Some(i) => final(self).displayed_files@ == old(self).displayed_files@.update(
                    i,
                    with_mark(
                        old(self).displayed_files@[i],
                        !old(self).displayed_files@[i].is_selected,
                    ),
                ),
                None => final(self).displayed_files == old(self).displayed_files,
            },
    {
        let ghost old_d = self.displayed_files@;
        let idx_opt = match self.flist_state.selected() {
            Some(i) => Some(i),
            None => {
                if !self.displayed_files.is_empty() {
                    Some(0)
                } else {
                    None
                }
            },
        };
        if let Some(i) = idx_opt {
            let f = self.displayed_files.remove(i);
            let flipped = !f.is_selected;
            let g = f.with_selected(flipped);
            self.displayed_files.insert(i, g);
            proof {
                let new_d = self.displayed_files@;
                assert(new_d =~= old_d.update(
                    i as int,
                    with_mark(old_d[i as int], !old_d[i as int].is_selected),
                ));
                assert forall|a: int, b: int| 0 <= a < b < new_d.len() implies #[trigger] file_le(
                    new_d[a],
                    new_d[b],
                ) by {
                    assert(file_le(old_d[a], old_d[b]));
                    assert(new_d[a].name == old_d[a].name);
                    assert(new_d[b].name == old_d[b].name);
                }
            }
        }
    }

    /// Replaces the selected entry's size with one the caller freshly read;
    /// nothing changes when the list is empty.
    pub fn update_selected_size(&mut self, size: u64)
        requires
            old(self).wf(),
        ensures
            final(self).wf(),
            *final(self) == (App {
                displayed_files: final(self).displayed_files,
                ..*old(self)
            }),
            match old(self).spec_selected_index() {
                Some(i) => final(self).displayed_files@ == old(self).displayed_files@.update(
                    i,
                    (File { size, ..old(self).displayed_files@[i] }),
                ),
                None => final(self).displayed_files == old(self).displayed_files,
            },
    {
        let ghost old_d = self.displayed_files@;
        let idx_opt = match self.flist_state.selected() {
            Some(i) => Some(i),
            None => {
                if !self.displayed_files.is_empty() {
                    Some(0)
                } else {
                    None
                }
            },
        };
        if let Some(i) = idx_opt {
            let mut f = self.displayed_files.remove(i);
            f.update_size(size);
            self.displayed_files.insert(i, f);
            proof {
                let new_d = self.displayed_files@;
                assert(new_d =~= old_d.update(
                    i as int,
                    (File { size, ..old_d[i as int] }),
                ));
                assert forall|a: int, b: int| 0 <= a < b < new_d.len() implies #[trigger] file_le(
                    new_d[a],
                    new_d[b],
                ) by {
                    assert(file_le(old_d[a], old_d[b]));
                    assert(new_d[a].name == old_d[a].name);
                    assert(new_d[b].name == old_d[b].name);
                }
            }
        }
    }
}

} // verus!
