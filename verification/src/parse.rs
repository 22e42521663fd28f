//! Lexical layer of the per-mapping accounting format: character classes,
//! scanning of whitespace and digit runs, and the kilobyte value carried by
//! the text that follows a label.

use vstd::prelude::*;

verus! {

/// Whitespace as the accounting format separates tokens: space, tab, and the
/// line-break control characters.
pub open spec fn is_ws(c: char) -> bool {
    c == ' ' || c == '\t' || c == '\n' || c == '\r'
}

/// A decimal digit.
pub open spec fn is_digit(c: char) -> bool {
    '0' <= c && c <= '9'
}

/// The numeric value of one decimal digit.
pub open spec fn digit_val(c: char) -> nat
    recommends
        is_digit(c),
{
    (c as int - '0' as int) as nat
}

/// ASCII lower-casing of one character; everything else is unchanged.
pub open spec fn lower(c: char) -> char {
    if 'A' <= c && c <= 'Z' {
        (c as int + 32) as char
    } else {
        c
    }
}

/// ASCII lower-casing, as executable code.
pub fn to_lower(c: char) -> (r: char)
    ensures
        r == lower(c),
{
    let u = c as u32;
    if 65 <= u && u <= 90 {
        ((u + 32) as u8) as char
    } else {
        c
    }
}

/// The first position at or after `i` that holds no whitespace (or the end).
pub open spec fn skip_ws_from(s: Seq<char>, i: nat) -> nat
    decreases s.len() - i,
{
    if i < s.len() && is_ws(s[i as int]) {
        skip_ws_from(s, i + 1)
    } else {
        i
    }
}

/// The first position at or after `i` that holds no decimal digit (or the end).
pub open spec fn skip_digits_from(s: Seq<char>, i: nat) -> nat
    decreases s.len() - i,
{
    if i < s.len() && is_digit(s[i as int]) {
        skip_digits_from(s, i + 1)
    } else {
        i
    }
}

/// The value of the digit run `s[i..j]`, read as a decimal number.
pub open spec fn digits_val(s: Seq<char>, i: nat, j: nat) -> nat
    recommends
        i <= j <= s.len(),
    decreases j,
{
    if i < j && j <= s.len() {
        digits_val(s, i, (j - 1) as nat) * 10 + digit_val(s[j - 1])
    } else {
        0
    }
}

/// The kilobyte value carried by the text after a label and its colon:
/// optional whitespace, a run of decimal digits, at least one whitespace
/// character, then the unit `kB` in any case; whatever follows the unit is
/// irrelevant.  Text of any other shape, and a value too wide for 32 bits
/// unsigned, carries zero.
pub open spec fn kb_of(s: Seq<char>) -> nat {
    let a = skip_ws_from(s, 0);
    let b = skip_digits_from(s, a);
    if b > a && b < s.len() && is_ws(s[b as int]) {
        let c = skip_ws_from(s, b);
        if c + 1 < s.len() && lower(s[c as int]) == 'k' && lower(s[c as int + 1]) == 'b' {
            let v = digits_val(s, a, b);
            if v <= u32::MAX as nat {
                v
            } else {
                0
            }
        } else {
            0
        }
    } else {
        0
    }
}

/// Whether the character at `i` is whitespace.
fn ws_at(s: &str, i: usize) -> (r: bool)
    requires
        i < s@.len(),
    ensures
        r == is_ws(s@[i as int]),
{
    let c = s.get_char(i);
    c == ' ' || c == '\t' || c == '\n' || c == '\r'
}

/// Whether the character at `i` is a decimal digit.
fn digit_at(s: &str, i: usize) -> (r: bool)
    requires
        i < s@.len(),
    ensures
        r == is_digit(s@[i as int]),
{
    let c = s.get_char(i);
    let u = c as u32;
    48 <= u && u <= 57
}

/// The kilobyte value of the text that follows a label and its colon, zero
/// when the text does not fit the `<integer> kB` pattern.
pub fn get_kb(line: &str) -> (r: u32)
    ensures
        r as nat == kb_of(line@),
{
    let n = line.unicode_len();
    let mut i: usize = 0;
    while i < n && ws_at(line, i)
        invariant
            i <= n,
            n == line@.len(),
            skip_ws_from(line@, 0) == skip_ws_from(line@, i as nat),
        decreases n - i,
    {
        i += 1;
    }
    let a = i;
    let mut j: usize = a;
    let mut val: u64 = 0;
    let mut over: bool = false;
    while j < n && digit_at(line, j)
        invariant
            a <= j <= n,
            n == line@.len(),
            skip_digits_from(line@, a as nat) == skip_digits_from(line@, j as nat),
            !over ==> val as nat == digits_val(line@, a as nat, j as nat) && val <= u32::MAX as u64,
            over ==> digits_val(line@, a as nat, j as nat) > u32::MAX as nat,
        decreases n - j,
    {
        let c = line.get_char(j);
        let d = (c as u32 - 48) as u64;
        if over {
            proof {
                assert(digits_val(line@, a as nat, (j + 1) as nat) == digits_val(
                    line@,
                    a as nat,
                    j as nat,
                ) * 10 + digit_val(line@[j as int]));
            }
        } else {
            let next = val * 10 + d;
            if next > u32::MAX as u64 {
                over = true;
            } else {
                val = next;
            }
        }
        j += 1;
    }
    let b = j;
    if b == a || b == n {
        return 0;
    }
    if !ws_at(line, b) {
        return 0;
    }
    let mut k = b;
    while k < n && ws_at(line, k)
        invariant
            b <= k <= n,
            n == line@.len(),
            skip_ws_from(line@, b as nat) == skip_ws_from(line@, k as nat),
        decreases n - k,
    {
        k += 1;
    }
    if n - k < 2 {
        return 0;
    }
    let u1 = to_lower(line.get_char(k));
    let u2 = to_lower(line.get_char(k + 1));
    if u1 != 'k' || u2 != 'b' {
        return 0;
    }
    if over {
        return 0;
    }
    val as u32
}

/// A process-table entry name denotes a process id exactly when it is a
/// non-empty run of decimal digits whose value fits in 32 bits unsigned.
pub open spec fn is_pid_name(name: Seq<char>) -> bool {
    &&& name.len() > 0
    &&& forall|i: int| 0 <= i < name.len() ==> is_digit(#[trigger] name[i])
    &&& digits_val(name, 0, name.len()) <= u32::MAX as nat
}

/// The process id named by a process-table entry, `None` for every entry
/// that is not wholly a decimal number of 32 bits.
pub fn parse_pid(name: &str) -> (r: Option<u32>)
    ensures
        r is Some <==> is_pid_name(name@),
        r matches Some(v) ==> v as nat == digits_val(name@, 0, name@.len()),
{
    let n = name.unicode_len();
    if n == 0 {
        return None;
    }
    let mut j: usize = 0;
    let mut val: u64 = 0;
    let mut over: bool = false;
    while j < n
        invariant
            j <= n,
            n == name@.len(),
            forall|i: int| 0 <= i < j ==> is_digit(#[trigger] name@[i]),
            !over ==> val as nat == digits_val(name@, 0, j as nat) && val <= u32::MAX as u64,
            over ==> digits_val(name@, 0, j as nat) > u32::MAX as nat,
        decreases n - j,
    {
        if !digit_at(name, j) {
            return None;
        }
        let c = name.get_char(j);
        let d = (c as u32 - 48) as u64;
        if over {
            proof {
                assert(digits_val(name@, 0, (j + 1) as nat) == digits_val(name@, 0, j as nat)
                    * 10 + digit_val(name@[j as int]));
            }
        } else {
            let next = val * 10 + d;
            if next > u32::MAX as u64 {
                over = true;
            } else {
                val = next;
            }
        }
        j += 1;
    }
    if over {
        return None;
    }
    Some(val as u32)
}

} // verus!
