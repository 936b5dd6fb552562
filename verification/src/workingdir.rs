//! The directory snapshot: an ordered, point-in-time copy of one directory's
//! entries, together with the sort that establishes the order. The caller
//! reads directories and hands the raw entries in; every operation here
//! leaves the snapshot sorted.

use vstd::multiset::Multiset;
use vstd::prelude::*;

use crate::file::{file_le, file_le_exec, files_sorted, File};
use crate::paths::{is_root, parent_of, path_is_root, path_parent};
use crate::text::{lemma_seq_le_total, lemma_seq_le_trans, strip_dot};

verus! {

broadcast use vstd::seq_lib::group_to_multiset_ensures;

/// The entry order is total: any two entries compare one way or the other.
pub proof fn lemma_file_le_total(a: File, b: File)
    ensures
        file_le(a, b) || file_le(b, a),
{
    lemma_seq_le_total(strip_dot(a.name@), strip_dot(b.name@));
}

/// The entry order is transitive.
pub proof fn lemma_file_le_trans(a: File, b: File, c: File)
    requires
        file_le(a, b),
        file_le(b, c),
    ensures
        file_le(a, c),
{
    lemma_seq_le_trans(strip_dot(a.name@), strip_dot(b.name@), strip_dot(c.name@));
}

/// The entry order is antisymmetric up to the sort key: entries that
/// compare equal both ways carry the same name once a leading `.` is
/// stripped.
pub proof fn lemma_file_le_antisym(a: File, b: File)
    requires
        file_le(a, b),
        file_le(b, a),
    ensures
        strip_dot(a.name@) == strip_dot(b.name@),
{
    crate::text::lemma_seq_le_antisym(strip_dot(a.name@), strip_dot(b.name@));
}

/// Inserts one entry into a sorted vector, keeping it sorted; equal keys
/// place the new entry after the old ones.
fn insert_sorted(out: &mut Vec<File>, f: File)
    requires
        files_sorted(old(out)@),
    ensures
        files_sorted(final(out)@),
        final(out)@.to_multiset() == old(out)@.to_multiset().insert(f),
{
    let mut idx: usize = 0;
    while idx < out.len() && file_le_exec(&out[idx], &f)
        invariant
            idx <= out@.len(),
            out@ == old(out)@,
            files_sorted(out@),
            forall|j: int| 0 <= j < idx ==> #[trigger] file_le(out@[j], f),
        decreases out@.len() - idx,
    {
        idx = idx + 1;
    }
    proof {
        if (idx as int) < out@.len() {
            lemma_file_le_total(out@[idx as int], f);
        }
        assert forall|j: int| idx <= j < out@.len() implies #[trigger] file_le(f, out@[j]) by {
            if j > idx {
                lemma_file_le_trans(f, out@[idx as int], out@[j]);
            }
        }
    }
    let ghost pre = out@;
    out.insert(idx, f);
    proof {
        let post = out@;
        assert forall|i: int, j: int| 0 <= i < j < post.len() implies #[trigger] file_le(
            post[i],
            post[j],
        ) by {
            if j < idx {
                assert(post[i] == pre[i] && post[j] == pre[j]);
            } else if i > idx {
                assert(post[i] == pre[i - 1] && post[j] == pre[j - 1]);
            } else if i < idx && j == idx {
                assert(post[i] == pre[i] && post[j] == f);
            } else if i == idx {
                assert(post[i] == f && post[j] == pre[j - 1]);
            } else if i < idx && j > idx {
                assert(post[i] == pre[i] && post[j] == pre[j - 1]);
            }
        }
    }
}

/// Sorts entries by name with a leading `.` stripped for comparison; the
/// result holds exactly the entries given.
#[verifier::loop_isolation(false)]
pub fn sort_files(files: Vec<File>) -> (r: Vec<File>)
    ensures
        files_sorted(r@),
        r@.to_multiset() == files@.to_multiset(),
{
    let ghost orig = files@;
    let mut input = files;
    let mut out: Vec<File> = Vec::new();
    proof {
        assert(out@.to_multiset().add(input@.to_multiset()) =~= orig.to_multiset());
    }
    loop
        invariant
            files_sorted(out@),
            out@.to_multiset().add(input@.to_multiset()) =~= orig.to_multiset(),
        decreases input@.len(),
    {
        let ghost pre_in = input@;
        let ghost pre_out = out@;
        match input.pop() {
            Some(f) => {
                proof {
                    assert(pre_in =~= input@.push(f));
                    assert(pre_in.to_multiset() =~= input@.to_multiset().insert(f));
                }
                insert_sorted(&mut out, f);
                proof {
                    broadcast use vstd::multiset::group_multiset_axioms;

                    assert(out@.to_multiset().add(input@.to_multiset()) =~= pre_out.to_multiset()
                        .insert(f).add(input@.to_multiset()));
                    assert(pre_out.to_multiset().insert(f).add(input@.to_multiset())
                        =~= pre_out.to_multiset().add(input@.to_multiset().insert(f)));
                }
            },
            None => {
                proof {
                    broadcast use vstd::multiset::group_multiset_axioms;

                    vstd::multiset::lemma_multiset_empty_len(input@.to_multiset());
                    assert(input@.to_multiset() =~= Multiset::<File>::empty());
                    assert(out@.to_multiset().add(Multiset::<File>::empty())
                        =~= out@.to_multiset());
                }
                return out;
            },
        }
    }
}

/// A point-in-time snapshot of one directory: its absolute path, its entries
/// in name order, and their count.
#[derive(Debug)]
pub struct WorkingDir {
    pub cwd: String,
    pub files: Vec<File>,
    pub len: usize,
}

impl Clone for WorkingDir {
    fn clone(&self) -> (r: Self)
        ensures
            r.cwd == self.cwd,
            r.files@ == self.files@,
            r.len == self.len,
    {
        WorkingDir {
            cwd: self.cwd.clone(),
            files: crate::app::copy_files(self.files.as_slice()),
            len: self.len,
        }
    }
}

impl WorkingDir {
    /// The snapshot's internal consistency: the count matches and the
    /// entries stand in name order.
    pub open spec fn wf(self) -> bool {
        &&& self.len == self.files@.len()
        &&& files_sorted(self.files@)
    }

    /// Builds a snapshot of the directory at `cwd` from the raw entries the
    /// caller read there, sorting them.
    pub fn new(cwd: String, entries: Vec<File>) -> (r: WorkingDir)
        ensures
            r.wf(),
            r.cwd@ == cwd@,
            r.files@.to_multiset() == entries@.to_multiset(),
    {
        let files = sort_files(entries);
        let len = files.len();
        WorkingDir { cwd, files, len }
    }

    /// Moves the snapshot to the directory at `path`, whose entries the
    /// caller has read; refused (no change) while the current directory is
    /// empty, since nothing can be selected to descend into.
    pub fn forward(&mut self, path: &str, entries: Vec<File>)
        requires
            old(self).wf(),
        ensures
            final(self).wf(),
            old(self).len > 0 ==> final(self).cwd@ == path@ && final(self).files@.to_multiset()
                == entries@.to_multiset(),
            old(self).len == 0 ==> *final(self) == *old(self),
    {
        if self.len > 0 {
            self.cwd = path.to_owned();
            self.update(entries);
        }
    }

    /// Moves the snapshot up to the parent directory, whose entries the
    /// caller has read; a no-op returning false at the filesystem root.
    pub fn back(&mut self, entries: Vec<File>) -> (r: bool)
        requires
            old(self).wf(),
        ensures
            final(self).wf(),
            r == !is_root(old(self).cwd@),
            !r ==> *final(self) == *old(self),
            r ==> final(self).cwd@ == parent_of(old(self).cwd@) && final(self).files@.to_multiset()
                == entries@.to_multiset(),
    {
        if path_is_root(self.cwd.as_str()) {
            false
        } else {
            self.cwd = path_parent(self.cwd.as_str());
            self.update(entries);
            true
        }
    }

    /// Points the snapshot at another directory, whose entries the caller
    /// has read.
    pub fn set_cwd(&mut self, new_cwd: String, entries: Vec<File>)
        ensures
            final(self).wf(),
            final(self).cwd@ == new_cwd@,
            final(self).files@.to_multiset() == entries@.to_multiset(),
    {
        self.cwd = new_cwd;
        self.files = sort_files(entries);
        self.len = self.files.len();
    }

    /// Replaces the entries with a fresh read of the same directory; called
    /// after any confirmed mutation.
    pub fn update(&mut self, entries: Vec<File>)
        ensures
            final(self).wf(),
            final(self).cwd == old(self).cwd,
            final(self).files@.to_multiset() == entries@.to_multiset(),
    {
        self.files = sort_files(entries);
        self.len = self.files.len();
    }

    /// The directory this snapshot was read from.
    pub fn cwd(&self) -> (r: &String)
        ensures
            r@ == self.cwd@,
    {
        &self.cwd
    }

    /// The entries, in name order.
    pub fn files(&self) -> (r: &[File])
        ensures
            r@ == self.files@,
    {
        self.files.as_slice()
    }

    /// How many entries the snapshot holds.
    pub fn len(&self) -> (r: usize)
        requires
            self.wf(),
        ensures
            r == self.files@.len(),
    {
        self.len
    }

    /// Whether the snapshot holds no entries.
    pub fn is_empty(&self) -> (r: bool)
        ensures
            r == (self.files@.len() == 0),
    {
        self.files.is_empty()
    }
}

} // verus!
