//! Detecting a selection by the clipboard: a probe value is written to the
//! clipboard, a copy is simulated, and whatever then stands on the clipboard
//! other than the probe is the selected text.

use vstd::prelude::*;
use vstd::string::StringExecFns;

verus! {

/// The start of every probe value.
pub const PROBE_PREFIX: &'static str = "dictate-selection-probe-";

/// The character of decimal digit `d`.
pub open spec fn digit_char(d: nat) -> char {
    (48 + d) as char
}

/// The decimal notation of `n`, without leading zeros.
pub open spec fn decimal_text(n: nat) -> Seq<char>
    decreases n,
{
    if n < 10 {
        seq![digit_char(n)]
    } else {
        decimal_text(n / 10) + seq![digit_char(n % 10)]
    }
}

/// The one-character text of decimal digit `d`.
fn digit_str(d: u8) -> (s: &'static str)
    requires
        d < 10,
    ensures
        s@ == seq![digit_char(d as nat)],
{
    proof {
        reveal_strlit("0");
        reveal_strlit("1");
        reveal_strlit("2");
        reveal_strlit("3");
        reveal_strlit("4");
        reveal_strlit("5");
        reveal_strlit("6");
        reveal_strlit("7");
        reveal_strlit("8");
        reveal_strlit("9");
    }
    match d {
        0 => "0",
        1 => "1",
        2 => "2",
        3 => "3",
        4 => "4",
        5 => "5",
        6 => "6",
        7 => "7",
        8 => "8",
        _ => "9",
    }
}

/// Appends the decimal notation of `n` to `s`.
fn push_decimal(s: &mut String, n: u128)
    ensures
        final(s)@ == old(s)@ + decimal_text(n as nat),
    decreases n,
{
    if n >= 10 {
        push_decimal(s, n / 10);
    }
    s.append(digit_str((n % 10) as u8));
}

pub open spec fn probe_text(pid: nat, nanos: nat) -> Seq<char> {
    PROBE_PREFIX@ + decimal_text(pid) + "-"@ + decimal_text(nanos)
}

/// The probe value written to the clipboard before the copy: unique to this
/// process and this moment.
pub fn probe_sentinel(pid: u32, nanos: u128) -> (s: String)
    ensures
        s@ == probe_text(pid as nat, nanos as nat),
{
    let mut s = String::from_str(PROBE_PREFIX);
    push_decimal(&mut s, pid as u128);
    s.append("-");
    push_decimal(&mut s, nanos);
    s
}

/// Decimal notation holds digits only.
pub proof fn lemma_decimal_digits(n: nat)
    ensures
        decimal_text(n).len() > 0,
        forall|i: int|
            0 <= i < decimal_text(n).len() ==> '0' <= #[trigger] decimal_text(n)[i] <= '9',
    decreases n,
{
    if n >= 10 {
        lemma_decimal_digits(n / 10);
        let a = decimal_text(n / 10);
        let b = seq![digit_char(n % 10)];
        assert forall|i: int| 0 <= i < decimal_text(n).len() implies '0' <= #[trigger] decimal_text(
            n,
        )[i] <= '9' by {
            if i < a.len() {
                assert(decimal_text(n)[i] == a[i]);
            } else {
                assert(decimal_text(n)[i] == b[i - a.len()]);
            }
        }
    }
}

/// A probe value never holds a NUL character, which some clipboards would cut
/// the text at.
pub proof fn lemma_probe_has_no_nul(pid: nat, nanos: nat)
    ensures
        forall|i: int| 0 <= i < probe_text(pid, nanos).len() ==> #[trigger] probe_text(pid, nanos)[i] != '\0',
{
    reveal_strlit("dictate-selection-probe-");
    reveal_strlit("-");
    lemma_decimal_digits(pid);
    lemma_decimal_digits(nanos);
    let p = PROBE_PREFIX@;
    let a = decimal_text(pid);
    let d = "-"@;
    let b = decimal_text(nanos);
    assert forall|i: int| 0 <= i < probe_text(pid, nanos).len() implies #[trigger] probe_text(pid, nanos)[i] != '\0' by {
        if i < p.len() {
            assert(probe_text(pid, nanos)[i] == p[i]);
        } else if i < p.len() + a.len() {
            assert(probe_text(pid, nanos)[i] == a[i - p.len()]);
        } else if i < p.len() + a.len() + d.len() {
            assert(probe_text(pid, nanos)[i] == d[i - p.len() - a.len()]);
        } else {
            assert(probe_text(pid, nanos)[i] == b[i - p.len() - a.len() - d.len()]);
        }
    }
}

/// The selection a probe found, given what the clipboard holds after the
/// simulated copy: that text, unless it is empty, unreadable or still the probe.
pub fn selection_from_probe(after: Option<String>, sentinel: &String) -> (sel: Option<String>)
    ensures
        match after {
            Some(text) => if text@.len() > 0 && text@ != sentinel@ {
                sel == Some(text)
            } else {
                sel is None
            },
            None => sel is None,
        },
{
    match after {
        Some(text) => {
            if !text.as_str().is_empty() && !(text == *sentinel) {
                Some(text)
            } else {
                None
            }
        },
        None => None,
    }
}

} // verus!
