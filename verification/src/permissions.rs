//! Nine-bit rwx permission words and their textual rendering.
//!
//! A permission word keeps the raw value it was built from. Values below 512
//! are the nine owner/group/other rwx bits, most significant first (owner
//! read highest); any larger value is the "unreadable metadata" sentinel and
//! renders as an error message instead of dashes.

use vstd::prelude::*;

verus! {

/// The message shown in place of the rwx string when the stored value does
/// not fit in nine bits.
pub const INVALID_PERMISSIONS_MSG: &'static str = "Error Reading Permissions!";

#[derive(Debug, Clone, Copy, PartialEq, Eq, Structural)]
pub struct Permissions {
    pub perms: u32,
}

impl Permissions {
    /// The raw word this permission value was built from.
    pub open spec fn spec_bits(self) -> u32 {
        self.perms
    }

    /// A value is valid when it fits in the nine rwx bits.
    pub open spec fn spec_valid(self) -> bool {
        self.perms < 512
    }

    /// Owner execute: bit 6 of the word (owner read is bit 8, the highest).
    pub open spec fn spec_user_exec(self) -> bool {
        (self.perms >> 6u32) & 1u32 == 1u32
    }

    /// Owner write: bit 7 of the word.
    pub open spec fn spec_user_write(self) -> bool {
        (self.perms >> 7u32) & 1u32 == 1u32
    }

    /// Owner read: bit 8 of the word, the most significant rwx bit.
    pub open spec fn spec_user_read(self) -> bool {
        (self.perms >> 8u32) & 1u32 == 1u32
    }

    pub fn is_user_exec(&self) -> (r: bool)
        ensures
            r == self.spec_user_exec(),
    {
        (self.perms >> 6u32) & 1u32 == 1u32
    }

    pub fn is_user_write(&self) -> (r: bool)
        ensures
            r == self.spec_user_write(),
    {
        (self.perms >> 7u32) & 1u32 == 1u32
    }

    pub fn is_user_read(&self) -> (r: bool)
        ensures
            r == self.spec_user_read(),
    {
        (self.perms >> 8u32) & 1u32 == 1u32
    }

    pub fn is_valid(&self) -> (r: bool)
        ensures
            r == self.spec_valid(),
    {
        self.perms < 512
    }

    /// The character standing at position `k` (0 through 8) of the rendered
    /// rwx string: positions cycle read, write, execute, and position 0 shows
    /// the highest bit (owner read, bit 8).
    pub open spec fn spec_char_at(self, k: int) -> char {
        let b = (self.perms >> ((8 - k) as u32)) & 1u32;
        if k % 3 == 0 {
            if b == 1u32 {
                'r'
            } else {
                '-'
            }
        } else if k % 3 == 1 {
            if b == 1u32 {
                'w'
            } else {
                '-'
            }
        } else {
            if b == 1u32 {
                'x'
            } else {
                '-'
            }
        }
    }

    /// The full rendering: nine rwx characters for a valid word, the
    /// invalid-permission sentinel otherwise.
    pub open spec fn spec_render(self) -> Seq<char> {
        if self.spec_valid() {
            Seq::new(9, |k: int| self.spec_char_at(k))
        } else {
            INVALID_PERMISSIONS_MSG@
        }
    }

    /// Renders the word as an "rwxrwxrwx"-style string, most significant bit
    /// first; out-of-range words render as the invalid-permission sentinel.
    pub fn render(&self) -> (r: String)
        ensures
            r@ == self.spec_render(),
    {
        if !self.is_valid() {
            return INVALID_PERMISSIONS_MSG.to_owned();
        }
        let mut s = String::new();
        let mut k: usize = 0;
        while k < 9
            invariant
                self.spec_valid(),
                k <= 9,
                s@ =~= Seq::new(k as nat, |i: int| self.spec_char_at(i)),
            decreases 9 - k,
        {
            proof {
                reveal_strlit("r");
                reveal_strlit("w");
                reveal_strlit("x");
                reveal_strlit("-");
            }
            let b = (self.perms >> ((8 - k) as u32)) & 1u32;
            let pos = k % 3;
            if pos == 0 {
                if b == 1u32 {
                    s.append("r");
                } else {
                    s.append("-");
                }
            } else if pos == 1 {
                if b == 1u32 {
                    s.append("w");
                } else {
                    s.append("-");
                }
            } else {
                if b == 1u32 {
                    s.append("x");
                } else {
                    s.append("-");
                }
            }
            k = k + 1;
        }
        proof {
            assert(s@ =~= self.spec_render());
        }
        s
    }
}

/// Law: every word outside the nine rwx bits renders as the
/// invalid-permission sentinel, never as dashes.
pub proof fn lemma_invalid_renders_sentinel(p: Permissions)
    requires
        !p.spec_valid(),
    ensures
        p.spec_render() == INVALID_PERMISSIONS_MSG@,
{
}

impl From<u32> for Permissions {
    /// Wraps a raw mode word without masking, so that out-of-range words stay
    /// recognisable as the invalid sentinel.
    fn from(num: u32) -> (r: Self) {
        Permissions { perms: num }
    }
}

impl vstd::std_specs::convert::FromSpecImpl<u32> for Permissions {
    open spec fn obeys_from_spec() -> bool {
        true
    }

    open spec fn from_spec(num: u32) -> Self {
        Permissions { perms: num }
    }
}

} // verus!
