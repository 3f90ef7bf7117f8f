//! Access modes and the rule that decides which modes may share an offset.
use vstd::prelude::*;

verus! {

/// How a register may be touched.
#[derive(Clone, Copy, Debug, PartialEq, Eq, Structural)]
pub enum AccessMode {
    /// Reads return the current value; writes store a new one.
    ReadWrite,
    /// Reads only.
    ReadOnly,
    /// Writes only.
    WriteOnly,
    /// Writing resets the register to its zero value.
    WriteClear,
    /// Reading resets the register to its zero value.
    ReadClear,
}

/// Whether a field of mode `next` may be declared at an offset whose most
/// recently recorded mode is `prior`.
///
/// A read-only field may share its offset with a write-only, write-to-clear
/// or read-to-clear field; any other mode may share its offset with a
/// read-only field only.
pub open spec fn may_share(prior: AccessMode, next: AccessMode) -> bool {
    match next {
        AccessMode::ReadOnly => prior == AccessMode::WriteOnly || prior == AccessMode::WriteClear
            || prior == AccessMode::ReadClear,
        _ => prior == AccessMode::ReadOnly,
    }
}

impl AccessMode {
    /// Executable form of [`may_share`], with `self` as the prior mode.
    pub fn admits(self, next: AccessMode) -> (r: bool)
        ensures
            r == may_share(self, next),
    {
        match next {
            AccessMode::ReadOnly => match self {
                AccessMode::WriteOnly | AccessMode::WriteClear | AccessMode::ReadClear => true,
                AccessMode::ReadWrite | AccessMode::ReadOnly => false,
            },
            _ => self == AccessMode::ReadOnly,
        }
    }
}

/// Whether `c` is the upper-case ASCII letter `upper`, ignoring case.
pub open spec fn letter_matches(c: char, upper: char) -> bool {
    c == upper || c as u32 == upper as u32 + 32
}

/// Whether `s` spells the upper-case ASCII word `word`, ignoring case.
pub open spec fn spells(s: Seq<char>, word: Seq<char>) -> bool {
    &&& s.len() == word.len()
    &&& forall|i: int| 0 <= i < s.len() ==> letter_matches(#[trigger] s[i], word[i])
}

/// The access mode that a mode name denotes, if any. Names are matched
/// without regard to ASCII case; `Clear` is an older name for `WC`.
pub open spec fn mode_named(s: Seq<char>) -> Option<AccessMode> {
    if spells(s, seq!['R', 'W']) {
        Some(AccessMode::ReadWrite)
    } else if spells(s, seq!['R', 'O']) {
        Some(AccessMode::ReadOnly)
    } else if spells(s, seq!['W', 'O']) {
        Some(AccessMode::WriteOnly)
    } else if spells(s, seq!['W', 'C']) || spells(s, seq!['C', 'L', 'E', 'A', 'R']) {
        Some(AccessMode::WriteClear)
    } else if spells(s, seq!['R', 'C']) {
        Some(AccessMode::ReadClear)
    } else {
        None
    }
}

fn spells_word(s: &str, word: &[char]) -> (r: bool)
    requires
        forall|i: int| 0 <= i < word@.len() ==> 'A' <= #[trigger] word@[i] <= 'Z',
    ensures
        r == spells(s@, word@),
{
    let n = s.unicode_len();
    if n != word.len() {
        return false;
    }
    let mut i: usize = 0;
    while i < n
        invariant
            n == s@.len(),
            n == word@.len(),
            0 <= i <= n,
            forall|j: int| 0 <= j < word@.len() ==> 'A' <= #[trigger] word@[j] <= 'Z',
            forall|j: int| 0 <= j < i ==> letter_matches(#[trigger] s@[j], word@[j]),
        decreases n - i,
    {
        let c = s.get_char(i);
        let u = word[i];
        if c != u && (c as u32) != (u as u32) + 32 {
            return false;
        }
        i = i + 1;
    }
    true
}

/// Resolves a mode name (`RW`, `RO`, `WO`, `WC`, `RC`, or `Clear` for `WC`),
/// ignoring ASCII case.
pub fn parse_access_mode(s: &str) -> (r: Option<AccessMode>)
    ensures
        r == mode_named(s@),
{
    let rw = ['R', 'W'];
    let ro = ['R', 'O'];
    let wo = ['W', 'O'];
    let wc = ['W', 'C'];
    let clear = ['C', 'L', 'E', 'A', 'R'];
    let rc = ['R', 'C'];
    assert(rw@ == seq!['R', 'W']);
    assert(ro@ == seq!['R', 'O']);
    assert(wo@ == seq!['W', 'O']);
    assert(wc@ == seq!['W', 'C']);
    assert(clear@ == seq!['C', 'L', 'E', 'A', 'R']);
    assert(rc@ == seq!['R', 'C']);
    if spells_word(s, &rw) {
        Some(AccessMode::ReadWrite)
    } else if spells_word(s, &ro) {
        Some(AccessMode::ReadOnly)
    } else if spells_word(s, &wo) {
        Some(AccessMode::WriteOnly)
    } else if spells_word(s, &wc) || spells_word(s, &clear) {
        Some(AccessMode::WriteClear)
    } else if spells_word(s, &rc) {
        Some(AccessMode::ReadClear)
    } else {
        None
    }
}

} // verus!
