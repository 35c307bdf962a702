//! Text forms of counts and durations.
use vstd::prelude::*;
use crate::text::{decimal, decimal_chars, push_all, push_lit, string_from_chars};

verus! {

/// `digits` with a comma before every digit that is followed by a multiple of three
/// digits, up to position `i`.
pub open spec fn grouped_prefix(digits: Seq<char>, i: int) -> Seq<char>
    decreases i,
{
    if i <= 0 {
        Seq::empty()
    } else {
        grouped_prefix(digits, i - 1) + (if i - 1 > 0 && (digits.len() - (i - 1)) % 3 == 0 {
            seq![',']
        } else {
            Seq::empty()
        }) + seq![digits[i - 1]]
    }
}

/// The decimal form of `n` with thousands separated by commas, such as `1,234,567`.
pub open spec fn spec_count(n: nat) -> Seq<char> {
    grouped_prefix(decimal(n), decimal(n).len() as int)
}

/// `value` in decimal with thousands separated by commas.
pub fn count(value: u64) -> (r: String)
    ensures
        r@ == spec_count(value as nat),
{
    let digits = decimal_chars(value);
    let n = digits.len();
    let mut out: Vec<char> = Vec::new();
    let mut i: usize = 0;
    while i < n
        invariant
            n == digits@.len(),
            i <= n,
            out@ == grouped_prefix(digits@, i as int),
        decreases n - i,
    {
        if i > 0 && (n - i) % 3 == 0 {
            out.push(',');
        }
        out.push(digits[i]);
        i = i + 1;
        assert(out@ =~= grouped_prefix(digits@, i as int));
    }
    string_from_chars(out.as_slice())
}

/// A duration of `secs` seconds: `45s` under a minute, `2m 35s` under an hour, `1h 15m`
/// from an hour on.
pub open spec fn spec_duration(secs: nat) -> Seq<char> {
    if secs < 60 {
        decimal(secs) + seq!['s']
    } else if secs / 3600 > 0 {
        decimal(secs / 3600) + seq!['h', ' '] + decimal((secs % 3600) / 60) + seq!['m']
    } else {
        decimal((secs % 3600) / 60) + seq!['m', ' '] + decimal(secs % 60) + seq!['s']
    }
}

/// A duration given in whole seconds, in human-readable form.
pub fn duration(total_secs: u64) -> (r: String)
    ensures
        r@ == spec_duration(total_secs as nat),
{
    let mut out: Vec<char> = Vec::new();
    if total_secs < 60 {
        let d = decimal_chars(total_secs);
        push_all(&mut out, d.as_slice());
        out.push('s');
        assert(out@ =~= spec_duration(total_secs as nat));
        return string_from_chars(out.as_slice());
    }
    let hours = total_secs / 3600;
    let minutes = (total_secs % 3600) / 60;
    let secs = total_secs % 60;
    if hours > 0 {
        let h = decimal_chars(hours);
        let m = decimal_chars(minutes);
        push_all(&mut out, h.as_slice());
        out.push('h');
        out.push(' ');
        push_all(&mut out, m.as_slice());
        out.push('m');
        assert(out@ =~= spec_duration(total_secs as nat));
    } else {
        let m = decimal_chars(minutes);
        let s = decimal_chars(secs);
        push_all(&mut out, m.as_slice());
        out.push('m');
        out.push(' ');
        push_all(&mut out, s.as_slice());
        out.push('s');
        assert(out@ =~= spec_duration(total_secs as nat));
    }
    string_from_chars(out.as_slice())
}

} // verus!
