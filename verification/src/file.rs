//! One directory entry: its classified metadata, the order it sorts by, and
//! the human-readable rendering of its size.

use vstd::prelude::*;

use crate::filetype::FileType;
use crate::paths::{file_name_of, path_file_name};
use crate::permissions::Permissions;
use crate::text::{
    dec2_str, dec_str, name_key, seq_le, str_le, strip_dot, u64_to_dec, u64_to_dec2,
};

verus! {

/// The plain metadata of one filesystem object, as the caller read it from a
/// directory listing: the raw mode word and size, and the two type flags.
#[derive(Debug, Clone, Copy)]
pub struct FileMeta {
    pub mode: u32,
    pub size: u64,
    pub is_dir: bool,
    pub is_symlink: bool,
}

/// One entry of a directory snapshot.
#[derive(Debug)]
pub struct File {
    pub name: String,
    pub ftype: FileType,
    pub perms: Permissions,
    pub path: String,
    pub size: u64,
    pub is_selected: bool,
}

impl Clone for File {
    fn clone(&self) -> (r: Self)
        ensures
            r == *self,
    {
        File {
            name: self.name.clone(),
            ftype: self.ftype,
            perms: self.perms,
            path: self.path.clone(),
            size: self.size,
            is_selected: self.is_selected,
        }
    }
}

/// The kind of an entry from its metadata: symlink first, then directory,
/// then the owner execute bit, and otherwise a regular file.
pub open spec fn classify(mode: u32, is_dir: bool, is_symlink: bool) -> FileType {
    if is_symlink {
        FileType::Symlink
    } else if is_dir {
        FileType::Directory
    } else if (mode >> 6u32) & 1u32 == 1u32 {
        FileType::Executable
    } else {
        FileType::File
    }
}

/// The order two entries sort by: their names compared lexicographically
/// with one leading `.` stripped.
pub open spec fn file_le(a: File, b: File) -> bool {
    seq_le(strip_dot(a.name@), strip_dot(b.name@))
}

/// A snapshot's entries stand in name order.
pub open spec fn files_sorted(s: Seq<File>) -> bool {
    forall|i: int, j: int| 0 <= i < j < s.len() ==> #[trigger] file_le(s[i], s[j])
}

/// 1000 raised to the `i`th power, the scale of the `i`th size unit.
pub open spec fn pow1000(i: int) -> int
    decreases i,
{
    if i <= 0 {
        1
    } else {
        1000 * pow1000(i - 1)
    }
}

/// The unit a size renders in: the first of k, M, G, T, E (scales 1 through
/// 5) in which the value falls below the promotion boundary of 999,950, the
/// last unit taking everything else.
pub open spec fn unit_index_from(size: int, i: int) -> int
    decreases 5 - i,
{
    if i >= 5 {
        5
    } else if size / pow1000(i) < 999950 {
        i
    } else {
        unit_index_from(size, i + 1)
    }
}

/// The letter of the `i`th size unit.
pub open spec fn unit_str(i: int) -> Seq<char> {
    if i == 1 {
        "k"@
    } else if i == 2 {
        "M"@
    } else if i == 3 {
        "G"@
    } else if i == 4 {
        "T"@
    } else {
        "E"@
    }
}

/// The human-readable rendering of a byte size: a bare integer with a "B"
/// suffix below 1000, and otherwise the value in the selected unit with two
/// (truncated) decimals.
pub open spec fn human_size(size: int) -> Seq<char> {
    if size < 1000 {
        dec_str(size) + " B"@
    } else {
        let i = unit_index_from(size, 1);
        let p = pow1000(i);
        dec_str(size / p) + "."@ + dec2_str(size % p * 100 / p) + " "@ + unit_str(i) + "B"@
    }
}

/// Law: every size below 1000 renders as the bare integer with a "B"
/// suffix; every larger size renders with two decimals in its unit.
pub proof fn lemma_size_rendering_shape(size: u64)
    ensures
        size < 1000 ==> human_size(size as int) == dec_str(size as int) + " B"@,
        size >= 1000 ==> {
            let i = unit_index_from(size as int, 1);
            let p = pow1000(i);
            human_size(size as int) == dec_str(size as int / p) + "."@ + dec2_str(
                size as int % p * 100 / p,
            ) + " "@ + unit_str(i) + "B"@
        },
{
}

proof fn lemma_pow1000_values()
    ensures
        pow1000(0) == 1,
        pow1000(1) == 1000,
        pow1000(2) == 1000000,
        pow1000(3) == 1000000000,
        pow1000(4) == 1000000000000,
        pow1000(5) == 1000000000000000,
{
    assert(pow1000(0) == 1);
    assert(pow1000(1) == 1000);
    assert(pow1000(2) == 1000000);
    assert(pow1000(3) == 1000000000);
    assert(pow1000(4) == 1000000000000);
    assert(pow1000(5) == 1000000000000000);
}

impl File {
    /// Builds an entry from its absolute path and the metadata the caller
    /// read for it; an unreadable entry (no metadata) becomes a regular file
    /// of size zero whose permissions are the invalid sentinel.
    pub fn from_meta(path: String, meta: Option<FileMeta>) -> (f: File)
        ensures
            f.path@ == path@,
            f.name@ == file_name_of(path@),
            f.is_selected == false,
            match meta {
                Some(m) => {
                    &&& f.perms == (Permissions { perms: m.mode })
                    &&& f.size == m.size
                    &&& f.ftype == classify(m.mode, m.is_dir, m.is_symlink)
                },
                None => {
                    &&& f.perms == (Permissions { perms: 0xffff_ffffu32 })
                    &&& f.size == 0
                    &&& f.ftype == FileType::File
                },
            },
    {
        let name = path_file_name(path.as_str());
        match meta {
            Some(m) => {
                let ftype = if m.is_symlink {
                    FileType::Symlink
                } else if m.is_dir {
                    FileType::Directory
                } else if (m.mode >> 6u32) & 1u32 == 1u32 {
                    FileType::Executable
                } else {
                    FileType::File
                };
                File {
                    name,
                    ftype,
                    perms: Permissions::from(m.mode),
                    path,
                    size: m.size,
                    is_selected: false,
                }
            },
            None => File {
                name,
                ftype: FileType::File,
                perms: Permissions::from(0xffff_ffffu32),
                path,
                size: 0,
                is_selected: false,
            },
        }
    }

    /// The entry's absolute path.
    pub fn path(&self) -> (r: &str)
        ensures
            r@ == self.path@,
    {
        self.path.as_str()
    }

    /// Recomputes the entry's name as the final component of its path.
    pub fn update(&mut self)
        ensures
            final(self).name@ == file_name_of(old(self).path@),
            final(self).path == old(self).path,
            final(self).ftype == old(self).ftype,
            final(self).perms == old(self).perms,
            final(self).size == old(self).size,
            final(self).is_selected == old(self).is_selected,
    {
        let name = path_file_name(self.path.as_str());
        self.name = name;
    }

    /// Replaces the stored size with one the caller freshly read.
    pub fn update_size(&mut self, size: u64)
        ensures
            final(self).size == size,
            final(self).name == old(self).name,
            final(self).path == old(self).path,
            final(self).ftype == old(self).ftype,
            final(self).perms == old(self).perms,
            final(self).is_selected == old(self).is_selected,
    {
        self.size = size;
    }

    /// The same entry with its transient mark cleared or set.
    pub fn with_selected(&self, sel: bool) -> (r: File)
        ensures
            r == (File { is_selected: sel, ..*self }),
    {
        File {
            name: self.name.clone(),
            ftype: self.ftype,
            perms: self.perms,
            path: self.path.clone(),
            size: self.size,
            is_selected: sel,
        }
    }

    /// Converts the size to a human-readable form: bytes below 1000, then
    /// k, M, G, T, E steps of 1000, two decimals, promoting to the next unit
    /// at 999,950 of the current one.
    pub fn size_to_readable(&self) -> (r: String)
        ensures
            r@ == human_size(self.size as int),
    {
        let size = self.size;
        if size < 1000 {
            let mut s = u64_to_dec(size);
            s.append(" B");
            proof {
                assert(s@ =~= human_size(size as int));
            }
            s
        } else {
            proof {
                lemma_pow1000_values();
            }
            let mut i: u64 = 1;
            let mut p: u64 = 1000;
            while i < 5 && size / p >= 999950
                invariant
                    1 <= i <= 5,
                    p == pow1000(i as int),
                    1000 <= p <= 1000000000000000,
                    size >= 1000,
                    unit_index_from(size as int, 1) == unit_index_from(size as int, i as int),
                decreases 5 - i,
            {
                proof {
                    lemma_pow1000_values();
                    assert(i == 1 || i == 2 || i == 3 || i == 4);
                    assert(p <= 1000000000000);
                }
                i = i + 1;
                p = p * 1000;
            }
            proof {
                assert(unit_index_from(size as int, i as int) == i as int);
            }
            let whole = size / p;
            let frac = size % p * 100 / p;
            proof {
                assert((size as int) % (p as int) * 100 / (p as int) < 100) by (nonlinear_arith)
                    requires
                        p >= 1000,
                ;
            }
            let mut s = u64_to_dec(whole);
            s.append(".");
            let f2 = u64_to_dec2(frac);
            s.append(f2.as_str());
            s.append(" ");
            if i == 1 {
                s.append("k");
            } else if i == 2 {
                s.append("M");
            } else if i == 3 {
                s.append("G");
            } else if i == 4 {
                s.append("T");
            } else {
                s.append("E");
            }
            s.append("B");
            proof {
                assert(s@ =~= human_size(size as int));
            }
            s
        }
    }
}

/// Compares two entries in the snapshot order.
pub fn file_le_exec(a: &File, b: &File) -> (r: bool)
    ensures
        r == file_le(*a, *b),
{
    str_le(name_key(a.name.as_str()), name_key(b.name.as_str()))
}

} // verus!
