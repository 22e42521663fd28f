//! Per-process identity read from the process table: the kernel-thread
//! test over a process's invocation string, the display form of that
//! string, and character-safe truncation for the report columns.

use vstd::prelude::*;

verus! {

/// The kernel-thread test over the outcome of reading a process's
/// invocation string: no string at all, or an empty one, marks the process
/// as a kernel thread.
pub open spec fn kernel_spec(cmdline: Option<Vec<u8>>) -> bool {
    match cmdline {
        Option::None => true,
        Option::Some(b) => b@.len() == 0,
    }
}

/// Whether a process is a kernel thread, judged from its invocation string:
/// `cmdline` carries the raw bytes read for the process, `None` where the
/// read failed.  Only a process with at least one byte of invocation string
/// counts as user-space.
pub fn is_kernel(cmdline: &Option<Vec<u8>>) -> (r: bool)
    ensures
        r == kernel_spec(*cmdline),
{
    match cmdline {
        Option::None => true,
        Option::Some(b) => b.len() == 0,
    }
}

/// Each byte widened to the character of the same value — not decoded as
/// text — with NUL argument separators shown as spaces.
pub open spec fn widened(bytes: Seq<u8>) -> Seq<char> {
    Seq::new(
        bytes.len(),
        |i: int|
            if bytes[i] == 0 {
                ' '
            } else {
                bytes[i] as char
            },
    )
}

/// Relies on String::push: appends the given character to the end of the
/// string.
#[verifier::external_body]
fn push_char(s: &mut String, c: char)
    ensures
        final(s)@ == old(s)@.push(c),
{
    s.push(c);
}

/// The display form of an invocation string: its raw bytes widened one for
/// one to characters, every NUL separator replaced by a single space.
pub fn cmdline_display(bytes: &Vec<u8>) -> (r: String)
    ensures
        r@ == widened(bytes@),
{
    let mut out = String::new();
    let mut i: usize = 0;
    while i < bytes.len()
        invariant
            i <= bytes@.len(),
            out@ == widened(bytes@).take(i as int),
        decreases bytes@.len() - i,
    {
        let b = bytes[i];
        let c = if b == 0 {
            ' '
        } else {
            b as char
        };
        push_char(&mut out, c);
        proof {
            assert(widened(bytes@).take(i + 1) =~= widened(bytes@).take(i as int).push(
                widened(bytes@)[i as int],
            ));
        }
        i += 1;
    }
    proof {
        assert(widened(bytes@).take(bytes@.len() as int) =~= widened(bytes@));
    }
    out
}

/// The string cut to at most `max` characters for a report column.
pub fn truncated(s: &str, max: usize) -> (r: String)
    ensures
        s@.len() <= max ==> r@ == s@,
        s@.len() > max ==> r@ == s@.take(max as int),
{
    let n = s.unicode_len();
    if n <= max {
        s.to_owned()
    } else {
        let sub = s.substring_char(0, max);
        proof {
            assert(sub@ =~= s@.take(max as int));
        }
        sub.to_owned()
    }
}

} // verus!
