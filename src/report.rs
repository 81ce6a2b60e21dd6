//! The finding aggregator: decides whether a file's scan in one category is
//! worth reporting, and renders the report section for it.

use vstd::prelude::*;
use crate::rules::RulesDataBase;
use crate::scan::strings_view;
use crate::text::{decimal, decimal_string};

verus! {

/// The entry has at least one location.
pub open spec fn has_findings(e: RulesDataBase) -> bool {
    e.location@.len() > 0
}

/// At least one entry of the scan result has a location.
pub open spec fn relevant(results: Seq<RulesDataBase>) -> bool {
    exists|i: int| 0 <= i < results.len() && has_findings(#[trigger] results[i])
}

/// The entries with at least one location, in their order.
pub open spec fn relevant_entries(results: Seq<RulesDataBase>) -> Seq<RulesDataBase>
    decreases results.len(),
{
    if results.len() == 0 {
        seq![]
    } else {
        let prev = relevant_entries(results.drop_last());
        if has_findings(results.last()) {
            prev.push(results.last())
        } else {
            prev
        }
    }
}

/// The text of case `index` (counted from zero) of an entry.
pub open spec fn case_text(index: nat, location: Seq<char>) -> Seq<char> {
    "Case "@ + decimal(index) + "#:\n```solidity\n"@ + location + "\n```\n\n"@
}

/// The text of all cases of an entry, in order.
pub open spec fn cases_text(locations: Seq<Seq<char>>) -> Seq<char>
    decreases locations.len(),
{
    if locations.len() == 0 {
        seq![]
    } else {
        cases_text(locations.drop_last()) + case_text(
            (locations.len() - 1) as nat,
            locations.last(),
        )
    }
}

/// The text of an entry numbered `number` in its section.
pub open spec fn entry_text(number: nat, e: RulesDataBase) -> Seq<char> {
    "## "@ + decimal(number) + ". "@ + e.title@ + "\n"@ + "#### "@ + e.description@ + "\n"@
        + cases_text(strings_view(e.location@)) + "#### "@ + e.recommendation@ + "\n"@
}

/// The text of entries numbered from one, in order.
pub open spec fn entries_text(entries: Seq<RulesDataBase>) -> Seq<char>
    decreases entries.len(),
{
    if entries.len() == 0 {
        seq![]
    } else {
        entries_text(entries.drop_last()) + entry_text(entries.len(), entries.last())
    }
}

/// The report section of a file: its name as a heading, then each entry with
/// locations, numbered from one. Nothing at all when no entry has a location.
pub open spec fn section_text(file: Seq<char>, results: Seq<RulesDataBase>) -> Seq<char> {
    if relevant(results) {
        "# "@ + file + "\n"@ + entries_text(relevant_entries(results))
    } else {
        seq![]
    }
}

proof fn lemma_relevant_entries_step(results: Seq<RulesDataBase>, i: int)
    requires
        0 <= i < results.len(),
    ensures
        relevant_entries(results.subrange(0, i + 1)) == if has_findings(results[i]) {
            relevant_entries(results.subrange(0, i)).push(results[i])
        } else {
            relevant_entries(results.subrange(0, i))
        },
{
    assert(results.subrange(0, i + 1).drop_last() =~= results.subrange(0, i));
}

/// Relevance is the same as having a relevant entry.
pub proof fn lemma_relevant_iff_entries(results: Seq<RulesDataBase>)
    ensures
        relevant(results) <==> relevant_entries(results).len() > 0,
    decreases results.len(),
{
    if results.len() > 0 {
        let prev = results.drop_last();
        lemma_relevant_iff_entries(prev);
        if relevant(prev) {
            let i = choose|i: int| 0 <= i < prev.len() && has_findings(#[trigger] prev[i]);
            assert(has_findings(results[i]));
        }
        if relevant(results) && !has_findings(results.last()) {
            let i = choose|i: int| 0 <= i < results.len() && has_findings(#[trigger] results[i]);
            assert(has_findings(prev[i]));
        }
    }
}

/// Whether any entry of a scan result has a location.
pub fn is_relevant(results: &Vec<RulesDataBase>) -> (r: bool)
    ensures
        r == relevant(results@),
{
    let mut i: usize = 0;
    while i < results.len()
        invariant
            i <= results.len(),
            forall|j: int| 0 <= j < i ==> !has_findings(#[trigger] results@[j]),
        decreases results.len() - i,
    {
        if results[i].location.len() > 0 {
            assert(has_findings(results@[i as int]));
            return true;
        }
        i = i + 1;
    }
    false
}

/// The positions of the entries that have locations, in increasing order.
pub fn relevant_indices(results: &Vec<RulesDataBase>) -> (r: Vec<usize>)
    ensures
        forall|a: int, b: int| 0 <= a < b < r.len() ==> r[a] < r[b],
        forall|k: int| 0 <= k < r.len() ==> #[trigger] r[k] < results.len() && has_findings(results[r[k] as int]),
        forall|j: int| 0 <= j < results.len() && #[trigger] has_findings(results[j]) ==> r@.contains(j as usize),
{
    let mut r: Vec<usize> = Vec::new();
    let mut i: usize = 0;
    while i < results.len()
        invariant
            i <= results.len(),
            forall|a: int, b: int| 0 <= a < b < r.len() ==> r[a] < r[b],
            forall|k: int| 0 <= k < r.len() ==> #[trigger] r[k] < i && has_findings(results[r[k] as int]),
            forall|j: int| 0 <= j < i && #[trigger] has_findings(results[j]) ==> r@.contains(j as usize),
        decreases results.len() - i,
    {
        if results[i].location.len() > 0 {
            let ghost r0 = r@;
            r.push(i);
            proof {
                assert forall|j: int| 0 <= j < i + 1 && #[trigger] has_findings(results[j]) implies r@.contains(j as usize) by {
                    if j < i {
                        let k = choose|k: int| 0 <= k < r0.len() && r0[k] == j as usize;
                        assert(r@[k] == j as usize);
                    } else {
                        assert(r@[r0.len() as int] == j as usize);
                    }
                }
            }
        }
        i = i + 1;
    }
    r
}

fn append_cases(s: &mut String, locations: &Vec<String>)
    ensures
        final(s)@ == old(s)@ + cases_text(strings_view(locations@)),
{
    let ghost s0 = s@;
    let mut j: usize = 0;
    while j < locations.len()
        invariant
            j <= locations.len(),
            s@ == s0 + cases_text(strings_view(locations@.subrange(0, j as int))),
        decreases locations.len() - j,
    {
        let ghost before = s@;
        s.append("Case ");
        let digits = decimal_string(j as u128);
        s.append(digits.as_str());
        s.append("#:\n```solidity\n");
        s.append(locations[j].as_str());
        s.append("\n```\n\n");
        proof {
            let prev = strings_view(locations@.subrange(0, j as int));
            let next = strings_view(locations@.subrange(0, j + 1));
            assert(next.drop_last() =~= prev);
            assert(next.last() == locations@[j as int]@);
            assert(s@ =~= before + case_text(j as nat, locations@[j as int]@));
            assert(s@ =~= s0 + cases_text(next));
        }
        j = j + 1;
    }
    proof {
        assert(locations@.subrange(0, locations.len() as int) =~= locations@);
    }
}

fn append_entry(s: &mut String, number: usize, e: &RulesDataBase)
    ensures
        final(s)@ == old(s)@ + entry_text(number as nat, *e),
{
    let ghost s0 = s@;
    s.append("## ");
    let digits = decimal_string(number as u128);
    s.append(digits.as_str());
    s.append(". ");
    s.append(e.title.as_str());
    s.append("\n");
    s.append("#### ");
    s.append(e.description.as_str());
    s.append("\n");
    append_cases(s, &e.location);
    s.append("#### ");
    s.append(e.recommendation.as_str());
    s.append("\n");
    proof {
        assert(s@ =~= s0 + entry_text(number as nat, *e));
    }
}

/// The report section of file `file_name` for one category's scan result:
/// the file name as a heading, then each entry with locations, numbered from
/// one, with its title, description, cases and recommendation. Empty when no
/// entry has a location.
pub fn render_section(file_name: &str, results: &Vec<RulesDataBase>) -> (r: String)
    ensures
        r@ == section_text(file_name@, results@),
{
    if !is_relevant(results) {
        return String::new();
    }
    let mut s = String::from_str("# ");
    s.append(file_name);
    s.append("\n");
    let ghost header = s@;
    let mut n: usize = 0;
    let mut i: usize = 0;
    while i < results.len()
        invariant
            i <= results.len(),
            n == relevant_entries(results@.subrange(0, i as int)).len(),
            n <= i,
            s@ == header + entries_text(relevant_entries(results@.subrange(0, i as int))),
        decreases results.len() - i,
    {
        proof {
            lemma_relevant_entries_step(results@, i as int);
        }
        if results[i].location.len() > 0 {
            let number = n + 1;
            append_entry(&mut s, number, &results[i]);
            proof {
                let es = relevant_entries(results@.subrange(0, i + 1));
                assert(es.drop_last() =~= relevant_entries(results@.subrange(0, i as int)));
                assert(s@ =~= header + entries_text(es));
            }
            n = number;
        }
        i = i + 1;
    }
    proof {
        assert(results@.subrange(0, results.len() as int) =~= results@);
    }
    s
}

proof fn lemma_relevant_entries_remove(results: Seq<RulesDataBase>, i: int)
    requires
        0 <= i < results.len(),
        !has_findings(results[i]),
    ensures
        relevant_entries(results.remove(i)) == relevant_entries(results),
    decreases results.len(),
{
    if i == results.len() - 1 {
        assert(results.remove(i) =~= results.drop_last());
    } else {
        let rest = results.remove(i);
        assert(rest.drop_last() =~= results.drop_last().remove(i));
        assert(rest.last() == results.last());
        lemma_relevant_entries_remove(results.drop_last(), i);
    }
}

/// An entry without locations never shows: taking it out of a scan result
/// changes neither the entries that are reported nor the rendered section.
pub proof fn lemma_unmatched_entry_not_reported(file: Seq<char>, results: Seq<RulesDataBase>, i: int)
    requires
        0 <= i < results.len(),
        results[i].location@.len() == 0,
    ensures
        relevant_entries(results.remove(i)) == relevant_entries(results),
        !relevant_entries(results).contains(results[i]),
        section_text(file, results.remove(i)) == section_text(file, results),
{
    lemma_relevant_entries_remove(results, i);
    lemma_relevant_iff_entries(results);
    lemma_relevant_iff_entries(results.remove(i));
    lemma_relevant_entries_have_findings(results);
}

/// Every reported entry has a location.
pub proof fn lemma_relevant_entries_have_findings(results: Seq<RulesDataBase>)
    ensures
        forall|k: int| 0 <= k < relevant_entries(results).len() ==> has_findings(
            #[trigger] relevant_entries(results)[k],
        ),
    decreases results.len(),
{
    if results.len() > 0 {
        let prev = relevant_entries(results.drop_last());
        lemma_relevant_entries_have_findings(results.drop_last());
        if has_findings(results.last()) {
            let es = prev.push(results.last());
            assert forall|k: int| 0 <= k < es.len() implies has_findings(#[trigger] es[k]) by {
                if k < prev.len() {
                    assert(es[k] == prev[k]);
                }
            }
        }
    }
}

} // verus!
