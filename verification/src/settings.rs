//! What the user types into the scan settings: the root to scan and the exclusion lists,
//! read into a filter configuration.
use vstd::prelude::*;
use crate::model::{normalize_extension_filter, spec_normalize_extension_filter, ScanFilterConfig};
use crate::text::{chars_of, push_all, push_lit, string_from_chars, trim, trim_chars};

verus! {

/// The characters that separate the entries of an exclusion list.
pub open spec fn is_list_separator(c: char) -> bool {
    c == ',' || c == ';' || c == '\n'
}

/// The pieces of a text between separators, empty pieces included (as `str::split` gives
/// them): one piece for a text without separators.
pub open spec fn split_parts(s: Seq<char>) -> Seq<Seq<char>>
    decreases s.len(),
{
    if s.len() == 0 {
        seq![Seq::empty()]
    } else {
        let rest = split_parts(s.drop_last());
        if is_list_separator(s.last()) {
            rest.push(Seq::empty())
        } else {
            rest.update(rest.len() - 1, rest.last().push(s.last()))
        }
    }
}

proof fn lemma_split_parts_nonempty(s: Seq<char>)
    ensures
        split_parts(s).len() >= 1,
    decreases s.len(),
{
    if s.len() > 0 {
        lemma_split_parts_nonempty(s.drop_last());
    }
}

/// The trimmed pieces that are not empty.
pub open spec fn kept_entries(parts: Seq<Seq<char>>) -> Seq<Seq<char>>
    decreases parts.len(),
{
    if parts.len() == 0 {
        Seq::empty()
    } else {
        let before = kept_entries(parts.drop_last());
        if trim(parts.last()).len() > 0 {
            before.push(trim(parts.last()))
        } else {
            before
        }
    }
}

/// The extension filters of the trimmed pieces that name one.
pub open spec fn kept_extensions(parts: Seq<Seq<char>>) -> Seq<Seq<char>>
    decreases parts.len(),
{
    if parts.len() == 0 {
        Seq::empty()
    } else {
        let before = kept_extensions(parts.drop_last());
        match spec_normalize_extension_filter(trim(parts.last())) {
            Some(e) => before.push(e),
            None => before,
        }
    }
}

/// The texts of the strings.
pub open spec fn views(v: Seq<String>) -> Seq<Seq<char>> {
    v.map_values(|s: String| s@)
}

/// The entries of a list typed by the user: the trimmed, non-empty pieces between
/// separators; with `extensions`, the extension filters they name instead.
pub fn list_entries(text: &str, extensions: bool) -> (r: Vec<String>)
    ensures
        !extensions ==> views(r@) == kept_entries(split_parts(text@)),
        extensions ==> views(r@) == kept_extensions(split_parts(text@)),
{
    let s = chars_of(text);
    let mut out: Vec<String> = Vec::new();
    let mut current: Vec<char> = Vec::new();
    let mut i: usize = 0;
    while i < s.len()
        invariant
            i <= s@.len(),
            split_parts(s@.take(i as int)).len() >= 1,
            current@ == split_parts(s@.take(i as int)).last(),
            !extensions ==> views(out@) == kept_entries(split_parts(s@.take(i as int)).drop_last()),
            extensions ==> views(out@) == kept_extensions(split_parts(s@.take(i as int)).drop_last()),
        decreases s.len() - i,
    {
        let ghost before = split_parts(s@.take(i as int));
        proof {
            assert(s@.take(i as int + 1).drop_last() =~= s@.take(i as int));
            lemma_split_parts_nonempty(s@.take(i as int + 1));
        }
        let c = s[i];
        if c == ',' || c == ';' || c == '\n' {
            let ghost part = current@;
            finish_entry(&mut out, current.as_slice(), extensions);
            current = Vec::new();
            proof {
                let after = split_parts(s@.take(i as int + 1));
                assert(after == before.push(Seq::empty()));
                assert(after.drop_last() =~= before);
                assert(before.drop_last().push(part) =~= before);
            }
        } else {
            current.push(c);
            proof {
                let after = split_parts(s@.take(i as int + 1));
                assert(after.drop_last() =~= before.drop_last());
            }
        }
        i = i + 1;
    }
    assert(s@.take(i as int) =~= s@);
    let ghost all = split_parts(s@);
    let ghost part = current@;
    finish_entry(&mut out, current.as_slice(), extensions);
    assert(all.drop_last().push(part) =~= all);
    out
}

fn finish_entry(out: &mut Vec<String>, part: &[char], extensions: bool)
    ensures
        !extensions ==> views(final(out)@) == if trim(part@).len() > 0 {
            views(old(out)@).push(trim(part@))
        } else {
            views(old(out)@)
        },
        extensions ==> views(final(out)@) == match spec_normalize_extension_filter(trim(part@)) {
            Some(e) => views(old(out)@).push(e),
            None => views(old(out)@),
        },
{
    let t = trim_chars(part);
    let ghost before = out@;
    if extensions {
        let text = string_from_chars(t.as_slice());
        match normalize_extension_filter(text.as_str()) {
            Some(e) => {
                out.push(e);
                assert(views(out@) =~= views(before).push(views(out@).last()));
            },
            None => {},
        }
    } else if t.len() > 0 {
        out.push(string_from_chars(t.as_slice()));
        assert(views(out@) =~= views(before).push(trim(part@)));
    }
}

/// The filter configuration of the settings typed by the user.
pub fn scan_filter_config_from_input(excluded_dirs: &str, excluded_extensions: &str, same_file_system: bool) -> (r: ScanFilterConfig)
    ensures
        views(r.excluded_directories@) == kept_entries(split_parts(excluded_dirs@)),
        views(r.excluded_extensions@) == kept_extensions(split_parts(excluded_extensions@)),
        r.same_file_system == same_file_system,
{
    ScanFilterConfig {
        excluded_directories: list_entries(excluded_dirs, false),
        excluded_extensions: list_entries(excluded_extensions, true),
        same_file_system,
    }
}

/// The root typed by the user, trimmed; refused when empty.
pub fn root_input(input: &str) -> (r: Result<String, String>)
    ensures
        r is Ok == (trim(input@).len() > 0),
        r matches Ok(root) ==> root@ == trim(input@),
        r matches Err(e) ==> e@ == "请输入要扫描的目录。"@,
{
    let v = chars_of(input);
    let t = trim_chars(v.as_slice());
    if t.len() == 0 {
        return Err(String::from_str("请输入要扫描的目录。"));
    }
    Ok(string_from_chars(t.as_slice()))
}

/// The refusal of a root that does not exist or is not a directory.
pub open spec fn spec_root_problem(root: Seq<char>, exists: bool, is_dir: bool) -> Option<Seq<char>> {
    if !exists {
        Some("路径不存在："@ + root)
    } else if !is_dir {
        Some("路径不是目录："@ + root)
    } else {
        None
    }
}

/// Checks a root against what the file system says of it.
pub fn check_root(root: &str, exists: bool, is_dir: bool) -> (r: Result<(), String>)
    ensures
        r is Ok == spec_root_problem(root@, exists, is_dir) is None,
        r matches Err(e) ==> Some(e@) == spec_root_problem(root@, exists, is_dir),
{
    if exists && is_dir {
        return Ok(());
    }
    let mut m: Vec<char> = Vec::new();
    if !exists {
        push_lit(&mut m, "路径不存在：");
    } else {
        push_lit(&mut m, "路径不是目录：");
    }
    let rv = chars_of(root);
    push_all(&mut m, rv.as_slice());
    Err(string_from_chars(m.as_slice()))
}

} // verus!
