//! The match engine: runs each rule's pattern over a file's content, drops
//! matches that are comment markers, and records the location of the rest.

use vstd::prelude::*;
use vstd::string::StringSliceAdditionalSpecFns;
use vstd::utf8::encode_utf8;
use crate::lines::{line_from_bytes, line_number};
use crate::rules::RulesDataBase;
use crate::text::{format_location, is_comment, is_comment_match, location_text};

verus! {

#[verifier::external_type_specification]
#[verifier::external_body]
pub struct ExRegexError(fancy_regex::Error);

/// Why a scan of one file stopped. Each variant carries the position of the
/// rule in its list.
#[derive(Clone, Copy, Debug, PartialEq, Eq)]
pub enum ScanError {
    /// The rule's pattern is not a valid regular expression.
    InvalidPattern(usize),
    /// The regex engine failed while searching with the rule's pattern.
    MatchFailed(usize),
}

/// Whether `fancy_regex::Regex::new` accepts pattern `p`.
pub uninterp spec fn pattern_compiles(p: Seq<char>) -> bool;

/// Whether the search of `fancy_regex` with pattern `p` over `text` stops on
/// an error of the engine (a backtracking or stack limit).
pub uninterp spec fn search_fails(p: Seq<char>, text: Seq<char>) -> bool;

/// The successive non-overlapping matches of pattern `p` in `text`, as
/// `fancy_regex` finds them: each a start byte offset and the matched text.
pub uninterp spec fn matches_of(p: Seq<char>, text: Seq<char>) -> Seq<(usize, Seq<char>)>;

/// The pattern compiles and its search over `text` ends without an error.
pub open spec fn searchable(p: Seq<char>, text: Seq<char>) -> bool {
    pattern_compiles(p) && !search_fails(p, text)
}

/// The view of matches held as start offsets and strings.
pub open spec fn found_view(found: Seq<(usize, String)>) -> Seq<(usize, Seq<char>)> {
    found.map_values(|m: (usize, String)| (m.0, m.1@))
}

/// Matches as the regex engine reports them, each a start offset and the
/// matched text: each text stands in `content` at its offset, and no match
/// begins before the end of an earlier one.
pub open spec fn well_placed(found: Seq<(usize, Seq<char>)>, content: Seq<u8>) -> bool {
    &&& forall|k: int|
        0 <= k < found.len() ==> {
            let m = #[trigger] found[k];
            &&& m.0 + encode_utf8(m.1).len() <= content.len()
            &&& content.subrange(m.0 as int, m.0 + encode_utf8(m.1).len()) == encode_utf8(m.1)
        }
    &&& forall|j: int, k: int|
        0 <= j < k < found.len() ==> #[trigger] found[j].0 + encode_utf8(found[j].1).len()
            <= #[trigger] found[k].0
}

/// Relies on `fancy_regex::Regex::new`, then `Regex::find_iter` with
/// `Match::start` and `Match::as_str`. The outer result is the compilation:
/// whether it fails depends on the pattern alone. The inner one is the search:
/// the successive non-overlapping matches in `text`, left to right, each as its
/// start offset and `&text[start..end]`, or the first error of the engine.
/// Both the matches and the errors depend on the pattern and the text alone.
#[verifier::external_body]
fn search(pattern: &str, text: &str) -> (r: Result<
    Result<Vec<(usize, String)>, fancy_regex::Error>,
    fancy_regex::Error,
>)
    ensures
        r is Ok == pattern_compiles(pattern@),
        r is Ok ==> (r->Ok_0 is Ok == !search_fails(pattern@, text@)),
        r is Ok && r->Ok_0 is Ok ==> found_view(r->Ok_0->Ok_0@) == matches_of(pattern@, text@),
        r is Ok && r->Ok_0 is Ok ==> well_placed(found_view(r->Ok_0->Ok_0@), text.spec_bytes()),
{
    fancy_regex::Regex::new(pattern).map(
        |re| re.find_iter(text).map(|m| m.map(|m| (m.start(), m.as_str().to_string()))).collect(),
    )
}

/// The views of a sequence of strings.
pub open spec fn strings_view(v: Seq<String>) -> Seq<Seq<char>> {
    v.map_values(|s: String| s@)
}

/// The location strings of the matches `found` in `content` of file `file`, in
/// order, leaving out the matches whose text is a comment marker.
pub open spec fn kept_locations(file: Seq<char>, content: Seq<u8>, found: Seq<(usize, Seq<char>)>) -> Seq<
    Seq<char>,
>
    decreases found.len(),
{
    if found.len() == 0 {
        seq![]
    } else {
        let prev = kept_locations(file, content, found.drop_last());
        let m = found.last();
        if is_comment(m.1) {
            prev
        } else {
            prev.push(location_text(file, line_number(content, m.0 as int) as nat, m.1))
        }
    }
}

/// The number of findings that a rule reports in a file is the number of its
/// matches whose trimmed text does not start with a forward slash.
pub proof fn lemma_findings_count(file: Seq<char>, content: Seq<u8>, found: Seq<(usize, Seq<char>)>)
    ensures
        kept_locations(file, content, found).len() == found.filter(
            |m: (usize, Seq<char>)| !is_comment(m.1),
        ).len(),
    decreases found.len(),
{
    reveal(Seq::filter);
    if found.len() > 0 {
        lemma_findings_count(file, content, found.drop_last());
    }
}

/// The locations, in file `file_name` with content `content`, of the matches
/// `found` whose text is not a comment marker, in the order of `found`.
pub fn collect_locations(file_name: &str, content: &str, found: &Vec<(usize, String)>) -> (r: Vec<
    String,
>)
    ensures
        strings_view(r@) == kept_locations(file_name@, content.spec_bytes(), found_view(found@)),
{
    let ghost b = content.spec_bytes();
    let mut r: Vec<String> = Vec::new();
    let mut i: usize = 0;
    while i < found.len()
        invariant
            b == content.spec_bytes(),
            i <= found.len(),
            strings_view(r@) == kept_locations(file_name@, b, found_view(found@.subrange(0, i as int))),
        decreases found.len() - i,
    {
        let start = found[i].0;
        let matched = found[i].1.as_str();
        proof {
            assert(found_view(found@.subrange(0, i + 1)).drop_last() =~= found_view(found@.subrange(0, i as int)));
        }
        if !is_comment_match(matched) {
            let line = line_from_bytes(content, start, start);
            let loc = format_location(file_name, line, matched);
            r.push(loc);
            proof {
                assert(strings_view(r@) =~= kept_locations(file_name@, b, found_view(found@.subrange(0, i as int))).push(loc@));
            }
        }
        i = i + 1;
    }
    proof {
        assert(found@.subrange(0, found.len() as int) =~= found@);
    }
    r
}

/// `entry` is `rule` as scanned over `content` of file `file`: the same
/// static fields, and its locations are those `rule` had, followed by the kept
/// locations of the matches of its pattern in `content`.
pub open spec fn scanned_entry(entry: RulesDataBase, rule: RulesDataBase, file: Seq<char>, content: Seq<char>) -> bool {
    &&& entry.id@ == rule.id@
    &&& entry.title@ == rule.title@
    &&& entry.description@ == rule.description@
    &&& entry.rule@ == rule.rule@
    &&& entry.recommendation@ == rule.recommendation@
    &&& strings_view(entry.location@) == strings_view(rule.location@) + kept_locations(
        file,
        encode_utf8(content),
        matches_of(rule.rule@, content),
    )
}

/// The patterns of `rules` before position `n` all compile.
pub open spec fn compile_before(rules: Seq<RulesDataBase>, n: int) -> bool {
    forall|j: int| 0 <= j < n ==> pattern_compiles((#[trigger] rules[j]).rule@)
}

/// The patterns of `rules` before position `n` all compile and search
/// `content` without an error.
pub open spec fn searchable_before(rules: Seq<RulesDataBase>, content: Seq<char>, n: int) -> bool {
    forall|j: int| 0 <= j < n ==> searchable((#[trigger] rules[j]).rule@, content)
}

/// The position of the first rule whose pattern does not compile, or `None`
/// when all of them do. Meant to be run once over a catalog before any file is
/// scanned.
pub fn first_invalid_pattern(rules: &Vec<RulesDataBase>) -> (r: Option<usize>)
    ensures
        match r {
            Some(i) => i < rules.len() && compile_before(rules@, i as int) && !pattern_compiles(
                rules[i as int].rule@,
            ),
            None => compile_before(rules@, rules.len() as int),
        },
{
    let mut i: usize = 0;
    while i < rules.len()
        invariant
            i <= rules.len(),
            compile_before(rules@, i as int),
        decreases rules.len() - i,
    {
        match search(rules[i].rule.as_str(), "") {
            Ok(_) => {},
            Err(_) => {
                return Some(i);
            },
        }
        i = i + 1;
    }
    None
}

proof fn lemma_strings_view_push(v: Seq<String>, s: String)
    ensures
        strings_view(v.push(s)) == strings_view(v).push(s@),
{
    assert(strings_view(v.push(s)) =~= strings_view(v).push(s@));
}

fn copy_strings(v: &Vec<String>) -> (r: Vec<String>)
    ensures
        strings_view(r@) == strings_view(v@),
{
    let mut r: Vec<String> = Vec::new();
    let mut i: usize = 0;
    while i < v.len()
        invariant
            i <= v.len(),
            strings_view(r@) == strings_view(v@.subrange(0, i as int)),
        decreases v.len() - i,
    {
        let s = v[i].clone();
        let ghost r0 = r@;
        r.push(s);
        proof {
            assert(v@.subrange(0, i + 1) =~= v@.subrange(0, i as int).push(v@[i as int]));
            lemma_strings_view_push(r0, s);
            lemma_strings_view_push(v@.subrange(0, i as int), v@[i as int]);
        }
        i = i + 1;
    }
    proof {
        assert(v@.subrange(0, v.len() as int) =~= v@);
    }
    r
}

fn append_strings(dst: &mut Vec<String>, src: Vec<String>)
    ensures
        strings_view(final(dst)@) == strings_view(old(dst)@) + strings_view(src@),
{
    let ghost d0 = old(dst)@;
    let ghost s0 = src@;
    let mut src = src;
    dst.append(&mut src);
    proof {
        assert(strings_view(dst@) =~= strings_view(d0) + strings_view(s0));
    }
}

/// Scans the content of file `file_name` with each rule of `rules`, in order.
/// Entry `i` of the result is rule `i` with the locations of its surviving
/// matches appended. The scan succeeds exactly when every pattern compiles and
/// searches the content without an engine error; otherwise it stops at the
/// first rule where one of the two fails, and says which.
pub fn analyzing(file_name: &str, content: &str, rules: &Vec<RulesDataBase>) -> (r: Result<
    Vec<RulesDataBase>,
    ScanError,
>)
    ensures
        r is Ok == searchable_before(rules@, content@, rules.len() as int),
        match r {
            Ok(v) => {
                &&& v.len() == rules.len()
                &&& forall|i: int|
                    0 <= i < v.len() ==> scanned_entry(
                        #[trigger] v[i],
                        rules[i],
                        file_name@,
                        content@,
                    )
            },
            Err(ScanError::InvalidPattern(i)) => {
                &&& i < rules.len()
                &&& searchable_before(rules@, content@, i as int)
                &&& !pattern_compiles(rules[i as int].rule@)
            },
            Err(ScanError::MatchFailed(i)) => {
                &&& i < rules.len()
                &&& searchable_before(rules@, content@, i as int)
                &&& pattern_compiles(rules[i as int].rule@)
                &&& search_fails(rules[i as int].rule@, content@)
            },
        },
{
    let ghost b = content.spec_bytes();
    let mut out: Vec<RulesDataBase> = Vec::new();
    let mut i: usize = 0;
    while i < rules.len()
        invariant
            b == content.spec_bytes(),
            b == encode_utf8(content@),
            i <= rules.len(),
            out.len() == i,
            searchable_before(rules@, content@, i as int),
            forall|j: int| 0 <= j < i ==> scanned_entry(#[trigger] out[j], rules[j], file_name@, content@),
        decreases rules.len() - i,
    {
        let rule = &rules[i];
        let found = match search(rule.rule.as_str(), content) {
            Ok(Ok(found)) => found,
            Ok(Err(_)) => {
                proof {
                    assert(!searchable_before(rules@, content@, rules.len() as int));
                }
                return Err(ScanError::MatchFailed(i));
            },
            Err(_) => {
                proof {
                    assert(!searchable_before(rules@, content@, rules.len() as int));
                }
                return Err(ScanError::InvalidPattern(i));
            },
        };
        let kept = collect_locations(file_name, content, &found);
        let mut location = copy_strings(&rule.location);
        append_strings(&mut location, kept);
        let entry = RulesDataBase {
            id: rule.id.clone(),
            title: rule.title.clone(),
            description: rule.description.clone(),
            location,
            rule: rule.rule.clone(),
            recommendation: rule.recommendation.clone(),
        };
        proof {
            assert(scanned_entry(entry, rules[i as int], file_name@, content@));
        }
        out.push(entry);
        i = i + 1;
    }
    Ok(out)
}

/// A scan is deterministic: two entries scanned from the same rule over the
/// same content of the same file are equal in every field, locations included.
pub proof fn lemma_scan_deterministic(
    a: RulesDataBase,
    b: RulesDataBase,
    rule: RulesDataBase,
    file: Seq<char>,
    content: Seq<char>,
)
    requires
        scanned_entry(a, rule, file, content),
        scanned_entry(b, rule, file, content),
    ensures
        a.id@ == b.id@,
        a.title@ == b.title@,
        a.description@ == b.description@,
        a.rule@ == b.rule@,
        a.recommendation@ == b.recommendation@,
        strings_view(a.location@) == strings_view(b.location@),
{
}

} // verus!
