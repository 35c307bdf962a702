//! Saved scans: the key a scan is saved under and how its save time is shown.
use vstd::prelude::*;
use crate::text::{chars_of, decimal_padded, decimal_padded_chars, lower_char, lower_seq, push_all, string_from_chars, to_lower};

verus! {

/// One saved scan.
#[derive(Debug, Clone)]
pub struct ScanCacheEntry {
    pub root_key: String,
    pub root_display: String,
    pub schema_version: u32,
    pub app_version: Option<String>,
    pub saved_at_unix_secs: u64,
    pub total_size: u64,
    pub file_count: u64,
    pub dir_count: u64,
    pub error_count: u64,
}

/// The text without its trailing backslashes.
pub open spec fn trim_backslashes(s: Seq<char>) -> Seq<char>
    decreases s.len(),
{
    if s.len() > 0 && s.last() == '\\' {
        trim_backslashes(s.drop_last())
    } else {
        s
    }
}

/// The key of a saved scan's root: `/` replaced by `\`, trailing `\` removed, ASCII lowercase.
pub open spec fn spec_root_key(path: Seq<char>) -> Seq<char> {
    lower_seq(trim_backslashes(path.map_values(|c: char| if c == '/' { '\\' } else { c })))
}

/// The key a scan of `path` is saved under (`path` as resolved by the file system).
pub fn root_key(path: &str) -> (r: String)
    ensures
        r@ == spec_root_key(path@),
{
    let v = chars_of(path);
    let mut slashed: Vec<char> = Vec::new();
    let mut i: usize = 0;
    while i < v.len()
        invariant
            i <= v@.len(),
            slashed@ == v@.take(i as int).map_values(|c: char| if c == '/' { '\\' } else { c }),
        decreases v.len() - i,
    {
        let c = v[i];
        slashed.push(if c == '/' { '\\' } else { c });
        i = i + 1;
        assert(slashed@ =~= v@.take(i as int).map_values(|c: char| if c == '/' { '\\' } else { c }));
    }
    assert(v@.take(v@.len() as int) =~= v@);
    let ghost whole = slashed@;
    let mut end: usize = slashed.len();
    assert(whole.subrange(0, end as int) =~= whole);
    while end > 0 && slashed[end - 1] == '\\'
        invariant
            end <= whole.len(),
            slashed@ == whole,
            trim_backslashes(whole) == trim_backslashes(whole.subrange(0, end as int)),
        decreases end,
    {
        assert(whole.subrange(0, end as int).drop_last() =~= whole.subrange(0, end as int - 1));
        end = end - 1;
    }
    let trimmed = crate::text::slice_copy(slashed.as_slice(), 0, end);
    let lower = to_lower(trimmed.as_slice());
    string_from_chars(lower.as_slice())
}

proof fn lemma_trim_backslashes(s: Seq<char>)
    ensures
        trim_backslashes(s).len() <= s.len(),
        trim_backslashes(s) =~= s.subrange(0, trim_backslashes(s).len() as int),
        trim_backslashes(s).len() > 0 ==> trim_backslashes(s).last() != '\\',
    decreases s.len(),
{
    if s.len() > 0 && s.last() == '\\' {
        lemma_trim_backslashes(s.drop_last());
    }
}

/// The key of a key is the key itself: a key read back from the cache finds its own entry.
pub proof fn lemma_root_key_idempotent(path: Seq<char>)
    ensures
        spec_root_key(spec_root_key(path)) == spec_root_key(path),
{
    let slashed = path.map_values(|c: char| if c == '/' { '\\' } else { c });
    let t = trim_backslashes(slashed);
    let k = spec_root_key(path);
    lemma_trim_backslashes(slashed);
    assert(k == lower_seq(t));
    assert forall|i: int| 0 <= i < t.len() implies t[i] != '/' by {
        assert(t[i] == slashed[i]);
    }
    let k2 = k.map_values(|c: char| if c == '/' { '\\' } else { c });
    assert(k2 =~= k);
    if k.len() > 0 {
        assert(k.last() == lower_char(t.last()));
        assert(k.last() != '\\');
    }
    assert(trim_backslashes(k) == k);
    assert(lower_seq(k) =~= k);
}

/// An approximate calendar form `YYYY-MM-DD hh:mm:ss` of a time in seconds since the epoch,
/// counting 365-day years and 30-day months.
pub open spec fn spec_timestamp(secs: nat) -> Seq<char> {
    let days = secs / 86400;
    let rem = days % 365;
    decimal_padded(1970 + days / 365, 4) + seq!['-'] + decimal_padded(rem / 30 + 1, 2) + seq!['-']
        + decimal_padded(rem % 30 + 1, 2) + seq![' '] + decimal_padded((secs % 86400) / 3600, 2) + seq![':']
        + decimal_padded((secs % 3600) / 60, 2) + seq![':'] + decimal_padded(secs % 60, 2)
}

fn timestamp(unix_secs: u64) -> (r: String)
    ensures
        r@ == spec_timestamp(unix_secs as nat),
{
    let days = unix_secs / 86400;
    let hours = (unix_secs % 86400) / 3600;
    let minutes = (unix_secs % 3600) / 60;
    let secs = unix_secs % 60;
    let years_since_1970 = days / 365;
    let remaining_days = days % 365;
    let months_approx = remaining_days / 30;
    let day_approx = remaining_days % 30;
    let mut out: Vec<char> = Vec::new();
    let y = decimal_padded_chars(1970 + years_since_1970, 4);
    push_all(&mut out, y.as_slice());
    out.push('-');
    let mo = decimal_padded_chars(months_approx + 1, 2);
    push_all(&mut out, mo.as_slice());
    out.push('-');
    let d = decimal_padded_chars(day_approx + 1, 2);
    push_all(&mut out, d.as_slice());
    out.push(' ');
    let h = decimal_padded_chars(hours, 2);
    push_all(&mut out, h.as_slice());
    out.push(':');
    let mi = decimal_padded_chars(minutes, 2);
    push_all(&mut out, mi.as_slice());
    out.push(':');
    let s = decimal_padded_chars(secs, 2);
    push_all(&mut out, s.as_slice());
    assert(out@ =~= spec_timestamp(unix_secs as nat));
    string_from_chars(out.as_slice())
}

/// How the save time of a scan is shown; zero stands for an unknown time.
pub fn format_saved_at_time(saved_at_unix_secs: u64) -> (r: String)
    ensures
        saved_at_unix_secs == 0 ==> r@ == "未知时间"@,
        saved_at_unix_secs != 0 ==> r@ == spec_timestamp(saved_at_unix_secs as nat),
{
    if saved_at_unix_secs == 0 {
        return String::from_str("未知时间");
    }
    timestamp(saved_at_unix_secs)
}

} // verus!
