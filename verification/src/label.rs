//! The recognized field labels of a mapping-accounting record, and the
//! match of one record line against one label.

use vstd::prelude::*;
use crate::parse::{get_kb, kb_of, lower, to_lower};

verus! {

/// The ten labels whose kilobyte values a summary accumulates.  `Count` is a
/// degenerate label that a real accounting stream never emits; it is kept
/// for compatibility with the format as once read.
#[derive(Clone, Copy, Debug, PartialEq, Eq, Structural)]
pub enum Label {
    Size,
    Rss,
    Pss,
    SharedClean,
    SharedDirty,
    PrivateClean,
    Count,
    PrivateDirty,
    Referenced,
    Swap,
}

/// The text of a label, as the accounting format spells it in lower case.
pub open spec fn label_seq(l: Label) -> Seq<char> {
    match l {
        Label::Size => "size"@,
        Label::Rss => "rss"@,
        Label::Pss => "pss"@,
        Label::SharedClean => "shared_clean"@,
        Label::SharedDirty => "shared_dirty"@,
        Label::PrivateClean => "private_clean"@,
        Label::Count => "count"@,
        Label::PrivateDirty => "private_dirty"@,
        Label::Referenced => "referenced"@,
        Label::Swap => "swap"@,
    }
}

/// The text of a label, as executable code.
pub fn label_str(l: Label) -> (r: &'static str)
    ensures
        r@ == label_seq(l),
{
    match l {
        Label::Size => "size",
        Label::Rss => "rss",
        Label::Pss => "pss",
        Label::SharedClean => "shared_clean",
        Label::SharedDirty => "shared_dirty",
        Label::PrivateClean => "private_clean",
        Label::Count => "count",
        Label::PrivateDirty => "private_dirty",
        Label::Referenced => "referenced",
        Label::Swap => "swap",
    }
}

/// The line opens with the label (compared after ASCII lower-casing)
/// followed at once by a colon.
pub open spec fn matches_label(line: Seq<char>, lab: Seq<char>) -> bool {
    &&& line.len() > lab.len()
    &&& forall|i: int| 0 <= i < lab.len() ==> lower(#[trigger] line[i]) == lab[i]
    &&& line[lab.len() as int] == ':'
}

/// What one line contributes to the running total of one label: its
/// kilobyte value where the label matches, and nothing otherwise.
pub open spec fn line_value(line: Seq<char>, lab: Seq<char>) -> nat {
    if matches_label(line, lab) {
        kb_of(line.skip(lab.len() as int + 1))
    } else {
        0
    }
}

/// Whether the line opens with the label and a colon.
pub fn line_has_label(line: &str, lab: &str) -> (r: bool)
    ensures
        r == matches_label(line@, lab@),
{
    let n = line.unicode_len();
    let m = lab.unicode_len();
    if n <= m {
        return false;
    }
    let mut i: usize = 0;
    while i < m
        invariant
            i <= m,
            m == lab@.len(),
            n == line@.len(),
            n > m,
            forall|k: int| 0 <= k < i ==> lower(#[trigger] line@[k]) == lab@[k],
        decreases m - i,
    {
        let lc = to_lower(line.get_char(i));
        let ec = lab.get_char(i);
        if lc != ec {
            return false;
        }
        i += 1;
    }
    let c = line.get_char(m);
    c == ':'
}

/// The line's contribution to one label's total.
pub fn label_kb(line: &str, lab: &str) -> (r: u32)
    ensures
        r as nat == line_value(line@, lab@),
{
    if line_has_label(line, lab) {
        let n = line.unicode_len();
        let m = lab.unicode_len();
        let rest = line.substring_char(m + 1, n);
        proof {
            assert(rest@ =~= line@.skip(m as int + 1));
        }
        get_kb(rest)
    } else {
        0
    }
}

/// A line's contribution to any label is never wider than 32 bits unsigned.
pub proof fn lemma_line_value_bound(line: Seq<char>, lab: Seq<char>)
    ensures
        line_value(line, lab) <= u32::MAX as nat,
{
}

} // verus!
