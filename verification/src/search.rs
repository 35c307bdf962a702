//! Filtering the result tables by a search text, and shortening long texts for display.
use vstd::prelude::*;
use crate::ai_analysis::AiReviewFinding;
use crate::cleanup::CleanupCandidate;
use crate::duplicates::DuplicateGroup;
use crate::model::{spec_path_label, DirectoryRecord, ExtensionRecord, FileRecord};
use crate::report::{file_name_text, shown_file_name};
use crate::text::{chars_of, contains, contains_chars, lower_seq, push_all, slice_copy, string_from_chars, to_lower, trim, trim_chars};

verus! {

/// A search text as compared: trimmed and in ASCII lower case.
pub open spec fn spec_normalized_query(query: Seq<char>) -> Seq<char> {
    lower_seq(trim(query))
}

/// A search text as compared.
pub fn normalized_query(query: &str) -> (r: String)
    ensures
        r@ == spec_normalized_query(query@),
{
    let v = chars_of(query);
    let t = trim_chars(v.as_slice());
    let l = to_lower(t.as_slice());
    string_from_chars(l.as_slice())
}

/// The text, in ASCII lower case, holds the (already normalized) query.
pub open spec fn spec_text_matches(text: Seq<char>, query: Seq<char>) -> bool {
    contains(lower_seq(text), query)
}

/// Whether the text holds the query, ignoring ASCII case.
pub fn text_matches(text: &str, query: &str) -> (r: bool)
    ensures
        r == spec_text_matches(text@, query@),
{
    let t = chars_of(text);
    let l = to_lower(t.as_slice());
    let q = chars_of(query);
    contains_chars(l.as_slice(), q.as_slice())
}

/// A directory is listed when the query is empty or its name or path holds it.
pub open spec fn spec_directory_matches(d: DirectoryRecord, query: Seq<char>) -> bool {
    query.len() == 0 || spec_text_matches(spec_path_label(d.path@), query) || spec_text_matches(d.path@, query)
}

/// Whether a directory is listed for the query.
pub fn directory_matches(d: &DirectoryRecord, query: &str) -> (r: bool)
    ensures
        r == spec_directory_matches(*d, query@),
{
    query.is_empty() || text_matches(d.name().as_str(), query) || text_matches(d.path.as_str(), query)
}

/// A file is listed when the query is empty or its name, path or extension holds it.
pub open spec fn spec_file_matches(f: FileRecord, query: Seq<char>) -> bool {
    query.len() == 0 || spec_text_matches(shown_file_name(f.path@), query) || spec_text_matches(f.path@, query)
        || spec_text_matches(f.extension@, query)
}

/// Whether a file is listed for the query.
pub fn file_matches(f: &FileRecord, query: &str) -> (r: bool)
    ensures
        r == spec_file_matches(*f, query@),
{
    query.is_empty() || text_matches(file_name_text(f.path.as_str()).as_str(), query) || text_matches(f.path.as_str(), query)
        || text_matches(f.extension.as_str(), query)
}

/// An extension is listed when the query is empty or the extension holds it.
pub open spec fn spec_extension_matches(e: ExtensionRecord, query: Seq<char>) -> bool {
    query.len() == 0 || spec_text_matches(e.extension@, query)
}

/// Whether an extension is listed for the query.
pub fn extension_matches(e: &ExtensionRecord, query: &str) -> (r: bool)
    ensures
        r == spec_extension_matches(*e, query@),
{
    query.is_empty() || text_matches(e.extension.as_str(), query)
}

/// A cleanup candidate is listed when the query is empty or its rule, risk, kind, path or
/// reason holds it.
pub open spec fn spec_cleanup_candidate_matches(c: CleanupCandidate, query: Seq<char>) -> bool {
    query.len() == 0 || spec_text_matches(c.rule_label@, query) || spec_text_matches(c.risk.spec_label(), query)
        || spec_text_matches("文件"@, query) || spec_text_matches(c.path@, query) || spec_text_matches(c.reason@, query)
}

/// Whether a cleanup candidate is listed for the query.
pub fn cleanup_candidate_matches(c: &CleanupCandidate, query: &str) -> (r: bool)
    ensures
        r == spec_cleanup_candidate_matches(*c, query@),
{
    query.is_empty() || text_matches(c.rule_label, query) || text_matches(c.risk.label(), query)
        || text_matches(c.kind.label(), query) || text_matches(c.path.as_str(), query)
        || text_matches(c.reason.as_str(), query)
}

/// A duplicate group is listed when the query is empty or its hash, the kept path or the
/// path of one of its files holds it.
pub open spec fn spec_duplicate_group_matches(g: DuplicateGroup, query: Seq<char>) -> bool {
    query.len() == 0 || spec_text_matches(g.hash@, query) || spec_text_matches(g.keep_path@, query)
        || exists|k: int| 0 <= k < g.files@.len() && spec_text_matches(#[trigger] g.files@[k].path@, query)
}

/// Whether a duplicate group is listed for the query.
pub fn duplicate_group_matches(g: &DuplicateGroup, query: &str) -> (r: bool)
    ensures
        r == spec_duplicate_group_matches(*g, query@),
{
    if query.is_empty() || text_matches(g.hash.as_str(), query) || text_matches(g.keep_path.as_str(), query) {
        return true;
    }
    let mut i: usize = 0;
    while i < g.files.len()
        invariant
            i <= g.files@.len(),
            forall|k: int| 0 <= k < i ==> !spec_text_matches(#[trigger] g.files@[k].path@, query@),
        decreases g.files.len() - i,
    {
        if text_matches(g.files[i].path.as_str(), query) {
            return true;
        }
        i = i + 1;
    }
    false
}

/// A finding is listed when the query is empty or one of its labels, its path or one of
/// its reasons holds it.
pub open spec fn spec_ai_finding_matches(f: AiReviewFinding, query: Seq<char>) -> bool {
    query.len() == 0 || spec_text_matches(f.final_recommendation.spec_label(), query)
        || spec_text_matches(f.audit_status.spec_label(), query) || spec_text_matches(f.risk.spec_label(), query)
        || spec_text_matches(f.category.spec_label(), query) || spec_text_matches(f.source.spec_label(), query)
        || spec_text_matches(f.display_path@, query) || spec_text_matches(f.analysis_reason@, query)
        || spec_text_matches(f.audit_reason@, query)
}

/// Whether a finding is listed for the query.
pub fn ai_finding_matches(f: &AiReviewFinding, query: &str) -> (r: bool)
    ensures
        r == spec_ai_finding_matches(*f, query@),
{
    query.is_empty() || text_matches(f.final_recommendation.label(), query) || text_matches(f.audit_status.label(), query)
        || text_matches(f.risk.label(), query) || text_matches(f.category.label(), query)
        || text_matches(f.source.label(), query) || text_matches(f.display_path.as_str(), query)
        || text_matches(f.analysis_reason.as_str(), query) || text_matches(f.audit_reason.as_str(), query)
}

/// A text of at most `max_chars` characters: unchanged when it fits, `…` alone for a limit
/// of one or less, else its first third (at least one) and its last characters around `…`.
pub open spec fn spec_compact_text(text: Seq<char>, max_chars: nat) -> Seq<char> {
    if text.len() <= max_chars {
        text
    } else if max_chars <= 1 {
        seq!['…']
    } else {
        let keep_start = if max_chars / 3 >= 1 { max_chars / 3 } else { 1 };
        let rest = max_chars - (keep_start + 1);
        let keep_end = if rest >= 1 { rest } else { 1 };
        let from = if text.len() >= keep_end { text.len() - keep_end } else { 0 };
        text.take(keep_start as int) + seq!['…'] + text.skip(from)
    }
}

/// The text shortened to about `max_chars` characters for display.
pub fn compact_text(text: &str, max_chars: usize) -> (r: String)
    ensures
        r@ == spec_compact_text(text@, max_chars as nat),
{
    let chars = chars_of(text);
    if chars.len() <= max_chars {
        return String::from_str(text);
    }
    if max_chars <= 1 {
        proof {
            reveal_strlit("…");
        }
        return String::from_str("…");
    }
    let keep_start = if max_chars / 3 >= 1 { max_chars / 3 } else { 1 };
    let keep_end = if max_chars >= keep_start + 1 && max_chars - (keep_start + 1) >= 1 {
        max_chars - (keep_start + 1)
    } else {
        1
    };
    let from = if chars.len() >= keep_end { chars.len() - keep_end } else { 0 };
    let mut out = slice_copy(chars.as_slice(), 0, keep_start);
    out.push('…');
    let tail = slice_copy(chars.as_slice(), from, chars.len());
    push_all(&mut out, tail.as_slice());
    assert(chars@.subrange(0, keep_start as int) =~= chars@.take(keep_start as int));
    assert(chars@.subrange(from as int, chars@.len() as int) =~= chars@.skip(from as int));
    string_from_chars(out.as_slice())
}

} // verus!
