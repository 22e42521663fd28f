//! The per-process memory summary and its aggregation: folding the lines of
//! one process's mapping-accounting stream into one record of kilobyte
//! totals, one field per recognized label.

use vstd::prelude::*;
use crate::label::{label_kb, label_seq, label_str, lemma_line_value_bound, line_value,
    matches_label, Label};

verus! {

/// One process's memory accounting, each field the summed kilobyte value of
/// one label over every mapping of the process.  `mapping_count` is fed by
/// the degenerate `count` label, which a real stream never carries.
#[derive(Clone, Copy, Debug)]
pub struct MemorySummary {
    pub pid: u32,
    pub size_kb: u32,
    pub rss_kb: u32,
    pub pss_kb: u32,
    pub shared_clean_kb: u32,
    pub shared_dirty_kb: u32,
    pub private_clean_kb: u32,
    pub mapping_count: u32,
    pub private_dirty_kb: u32,
    pub referenced_kb: u32,
    pub swap_kb: u32,
}

/// A total clipped to what a 32-bit unsigned field can hold.
pub open spec fn capped(t: nat) -> u32 {
    if t > u32::MAX as nat {
        u32::MAX
    } else {
        t as u32
    }
}

/// The sum of one label's contributions over the first `i` lines of a
/// stream.
pub open spec fn total_upto(lines: Seq<Seq<char>>, lab: Seq<char>, i: nat) -> nat
    decreases i,
{
    if 0 < i <= lines.len() {
        total_upto(lines, lab, (i - 1) as nat) + line_value(lines[i - 1], lab)
    } else {
        0
    }
}

/// The sum of one label's contributions over a whole stream.
pub open spec fn total(lines: Seq<Seq<char>>, lab: Seq<char>) -> nat {
    total_upto(lines, lab, lines.len())
}

/// Addition that stops at the top of the 32-bit unsigned range.
fn sat_add(a: u32, b: u32) -> (r: u32)
    ensures
        r == capped(a as nat + b as nat),
{
    if a > u32::MAX - b {
        u32::MAX
    } else {
        a + b
    }
}

/// Clipping distributes over addition when the addend is itself in range.
proof fn lemma_capped_add(t: nat, v: nat)
    requires
        v <= u32::MAX as nat,
    ensures
        capped(capped(t) as nat + v) == capped(t + v),
{
}

impl MemorySummary {
    /// The field that one label feeds.
    pub open spec fn get(self, l: Label) -> u32 {
        match l {
            Label::Size => self.size_kb,
            Label::Rss => self.rss_kb,
            Label::Pss => self.pss_kb,
            Label::SharedClean => self.shared_clean_kb,
            Label::SharedDirty => self.shared_dirty_kb,
            Label::PrivateClean => self.private_clean_kb,
            Label::Count => self.mapping_count,
            Label::PrivateDirty => self.private_dirty_kb,
            Label::Referenced => self.referenced_kb,
            Label::Swap => self.swap_kb,
        }
    }

    /// An empty summary for one process, every total zero.
    pub fn new(pid: u32) -> (s: MemorySummary)
        ensures
            s.pid == pid,
            forall|l: Label| #[trigger] s.get(l) == 0u32,
    {
        MemorySummary {
            pid,
            size_kb: 0,
            rss_kb: 0,
            pss_kb: 0,
            shared_clean_kb: 0,
            shared_dirty_kb: 0,
            private_clean_kb: 0,
            mapping_count: 0,
            private_dirty_kb: 0,
            referenced_kb: 0,
            swap_kb: 0,
        }
    }

    /// Unique set size in kilobytes: memory held privately, the sum of the
    /// private clean and private dirty totals.  Derived on demand, never
    /// stored.
    pub fn uss_kb(&self) -> (r: u64)
        ensures
            r == self.private_clean_kb + self.private_dirty_kb,
    {
        self.private_clean_kb as u64 + self.private_dirty_kb as u64
    }
}

/// Add one line's contributions to a summary: every recognized label's
/// field takes exactly that line's value for that label, so a line that
/// matches no recognized label changes nothing.
pub fn accumulate_line(stat: &mut MemorySummary, line: &str)
    ensures
        forall|l: Label| #[trigger]
            final(stat).get(l) == capped(
                old(stat).get(l) as nat + line_value(line@, label_seq(l)),
            ),
        final(stat).pid == old(stat).pid,
{
    stat.size_kb = sat_add(stat.size_kb, label_kb(line, label_str(Label::Size)));
    stat.rss_kb = sat_add(stat.rss_kb, label_kb(line, label_str(Label::Rss)));
    stat.pss_kb = sat_add(stat.pss_kb, label_kb(line, label_str(Label::Pss)));
    stat.shared_clean_kb = sat_add(stat.shared_clean_kb, label_kb(line, label_str(Label::SharedClean)));
    stat.shared_dirty_kb = sat_add(stat.shared_dirty_kb, label_kb(line, label_str(Label::SharedDirty)));
    stat.private_clean_kb = sat_add(stat.private_clean_kb, label_kb(line, label_str(Label::PrivateClean)));
    stat.mapping_count = sat_add(stat.mapping_count, label_kb(line, label_str(Label::Count)));
    stat.private_dirty_kb = sat_add(stat.private_dirty_kb, label_kb(line, label_str(Label::PrivateDirty)));
    stat.referenced_kb = sat_add(stat.referenced_kb, label_kb(line, label_str(Label::Referenced)));
    stat.swap_kb = sat_add(stat.swap_kb, label_kb(line, label_str(Label::Swap)));
}

/// Fold a whole accounting stream into the summary of one process: each
/// field ends as the clipped sum of its label's values over every line,
/// case-insensitively and regardless of intervening unrelated lines.
pub fn aggregate(pid: u32, lines: &Vec<String>) -> (s: MemorySummary)
    ensures
        s.pid == pid,
        forall|l: Label| #[trigger]
            s.get(l) == capped(total(lines.deep_view(), label_seq(l))),
{
    let mut s = MemorySummary::new(pid);
    let mut i: usize = 0;
    while i < lines.len()
        invariant
            i <= lines.len(),
            s.pid == pid,
            forall|l: Label| #[trigger]
                s.get(l) == capped(total_upto(lines.deep_view(), label_seq(l), i as nat)),
        decreases lines.len() - i,
    {
        let ghost pre = s;
        accumulate_line(&mut s, lines[i].as_str());
        proof {
            assert forall|l: Label| #[trigger]
                s.get(l) == capped(
                    total_upto(lines.deep_view(), label_seq(l), (i + 1) as nat),
                ) by {
                let lab = label_seq(l);
                let lv = line_value(lines.deep_view()[i as int], lab);
                assert(lines.deep_view()[i as int] == lines@[i as int]@);
                lemma_line_value_bound(lines.deep_view()[i as int], lab);
                lemma_capped_add(total_upto(lines.deep_view(), lab, i as nat), lv);
            }
        }
        i += 1;
    }
    s
}

/// One process's report entry: `None` exactly when the accounting stream
/// could not be read, so an unreadable process yields no summary at all,
/// not a summary of zeroes.
pub fn summarize(pid: u32, lines: Option<Vec<String>>) -> (r: Option<MemorySummary>)
    ensures
        r is Some <==> lines is Some,
        lines matches Some(ls) ==> (r matches Some(s) && s.pid == pid && forall|l: Label|
            #[trigger] s.get(l) == capped(total(ls.deep_view(), label_seq(l)))),
{
    match lines {
        Some(ls) => Some(aggregate(pid, &ls)),
        None => None,
    }
}

/// Two streams that agree on their first `i` lines agree on every total
/// over those lines.
proof fn lemma_total_upto_prefix(s1: Seq<Seq<char>>, s2: Seq<Seq<char>>, lab: Seq<char>, i: nat)
    requires
        i <= s1.len(),
        i <= s2.len(),
        forall|k: int| 0 <= k < i ==> s1[k] == s2[k],
    ensures
        total_upto(s1, lab, i) == total_upto(s2, lab, i),
    decreases i,
{
    if 0 < i {
        lemma_total_upto_prefix(s1, s2, lab, (i - 1) as nat);
    }
}

/// Law: a line that matches no recognized label never affects any total —
/// appended to any stream, it leaves every label's sum as it was.
pub proof fn lemma_unrecognized_line_no_effect(lines: Seq<Seq<char>>, line: Seq<char>)
    requires
        forall|m: Label| !matches_label(line, label_seq(m)),
    ensures
        forall|l: Label|
            total(lines.push(line), #[trigger] label_seq(l)) == total(lines, label_seq(l)),
{
    assert forall|l: Label|
        total(lines.push(line), #[trigger] label_seq(l)) == total(lines, label_seq(l)) by {
        let lab = label_seq(l);
        let pushed = lines.push(line);
        assert(total_upto(pushed, lab, pushed.len()) == total_upto(pushed, lab, lines.len())
            + line_value(line, lab));
        lemma_total_upto_prefix(pushed, lines, lab, lines.len());
        assert(line_value(line, lab) == 0);
    }
}

/// Law: a summary field is the exact arithmetic sum of its label's values
/// over the whole stream whenever that sum fits the field's width.
pub proof fn lemma_field_is_exact_sum(s: MemorySummary, lines: Seq<Seq<char>>, l: Label)
    requires
        forall|m: Label| #[trigger] s.get(m) == capped(total(lines, label_seq(m))),
        total(lines, label_seq(l)) <= u32::MAX as nat,
    ensures
        s.get(l) as nat == total(lines, label_seq(l)),
{
}

} // verus!
