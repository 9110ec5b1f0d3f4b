use vstd::prelude::*;
use crate::errors::GrepLiteError;
use crate::matcher::Matcher;
use crate::matcher::pattern_valid;
use crate::matcher::regex_matches;

verus! {

/// The texts of a sequence of owned lines.
pub open spec fn line_views(lines: Seq<String>) -> Seq<Seq<char>> {
    lines.map_values(|s: String| s@)
}

/// The lines of `lines` that `pattern` matches, in their original order:
/// the output of one scan.
pub open spec fn matching_lines(pattern: Seq<char>, lines: Seq<Seq<char>>) -> Seq<Seq<char>>
    decreases lines.len(),
{
    if lines.len() == 0 {
        Seq::empty()
    } else {
        let rest = matching_lines(pattern, lines.drop_last());
        if regex_matches(pattern, lines.last()) {
            rest.push(lines.last())
        } else {
            rest
        }
    }
}

/// One pass over `lines`: keep exactly the lines the matcher matches,
/// in their original order, each visited once.
pub fn scan_lines(matcher: &Matcher, lines: &Vec<String>) -> (r: Vec<String>)
    ensures
        line_views(r@) == matching_lines(matcher@, line_views(lines@)),
{
    let ghost all = line_views(lines@);
    let mut out: Vec<String> = Vec::new();
    let mut i: usize = 0;
    while i < lines.len()
        invariant
            i <= lines.len(),
            all == line_views(lines@),
            line_views(out@) == matching_lines(matcher@, all.take(i as int)),
        decreases lines.len() - i,
    {
        let ghost prev = line_views(out@);
        let line: &String = &lines[i];
        if matcher.is_match(line) {
            out.push(line.clone());
            proof {
                assert(line_views(out@) =~= prev.push(line@));
            }
        }
        proof {
            assert(all.take(i + 1).drop_last() =~= all.take(i as int));
            assert(all.take(i + 1).last() == line@);
        }
        i = i + 1;
    }
    proof {
        assert(all.take(lines@.len() as int) =~= all);
    }
    out
}

/// Compile `pattern`, then scan `lines` with it: on a pattern the engine
/// accepts, the result is exactly the matching lines in their original
/// order; on any other pattern the result is a `Regex` error carrying the
/// engine's diagnostic, and no lines are produced.
pub fn grep_lines(pattern: &String, lines: &Vec<String>) -> (r: Result<Vec<String>, GrepLiteError>)
    ensures
        r is Ok <==> pattern_valid(pattern@),
        r matches Ok(out) ==> line_views(out@) == matching_lines(pattern@, line_views(lines@)),
        r matches Err(e) ==> e is Regex,
{
    match Matcher::new(pattern.clone()) {
        Ok(m) => Ok(scan_lines(&m, lines)),
        Err(e) => Err(e),
    }
}

/// If the pattern matches none of the lines, the scan outputs nothing.
pub proof fn lemma_no_match_yields_empty(pattern: Seq<char>, lines: Seq<Seq<char>>)
    ensures
        (forall|i: int| 0 <= i < lines.len() ==> !regex_matches(pattern, #[trigger] lines[i]))
            ==> matching_lines(pattern, lines) == Seq::<Seq<char>>::empty(),
    decreases lines.len(),
{
    if lines.len() > 0 {
        lemma_no_match_yields_empty(pattern, lines.drop_last());
        if forall|i: int| 0 <= i < lines.len() ==> !regex_matches(pattern, #[trigger] lines[i]) {
            assert forall|i: int|
                0 <= i < lines.drop_last().len() implies !regex_matches(
                pattern,
                #[trigger] lines.drop_last()[i],
            ) by {
                assert(lines.drop_last()[i] == lines[i]);
            }
            assert(!regex_matches(pattern, lines[lines.len() - 1]));
        }
    }
}

/// Every line the scan outputs matches the pattern and is one of the input
/// lines, every input line the pattern matches is output, and no lines are
/// added.
pub proof fn lemma_scan_exact(pattern: Seq<char>, lines: Seq<Seq<char>>)
    ensures
        forall|j: int|
            0 <= j < matching_lines(pattern, lines).len() ==> regex_matches(
                pattern,
                #[trigger] matching_lines(pattern, lines)[j],
            ) && lines.contains(matching_lines(pattern, lines)[j]),
        forall|i: int|
            0 <= i < lines.len() && regex_matches(pattern, #[trigger] lines[i])
                ==> matching_lines(pattern, lines).contains(lines[i]),
        matching_lines(pattern, lines).len() <= lines.len(),
    decreases lines.len(),
{
    if lines.len() > 0 {
        let rest = lines.drop_last();
        lemma_scan_exact(pattern, rest);
        let out = matching_lines(pattern, lines);
        let sub = matching_lines(pattern, rest);
        assert forall|j: int|
            0 <= j < out.len() implies regex_matches(pattern, #[trigger] out[j]) && lines.contains(
            out[j],
        ) by {
            if j < sub.len() {
                assert(out[j] == sub[j]);
                let k = choose|k: int| 0 <= k < rest.len() && rest[k] == sub[j];
                assert(lines[k] == sub[j]);
            } else {
                assert(out[j] == lines.last());
                assert(lines[lines.len() - 1] == lines.last());
            }
        }
        assert forall|i: int|
            0 <= i < lines.len() && regex_matches(pattern, #[trigger] lines[i]) implies out.contains(
            lines[i],
        ) by {
            if i == lines.len() - 1 {
                assert(out[out.len() - 1] == lines[i]);
            } else {
                assert(rest[i] == lines[i]);
                assert(sub.contains(lines[i]));
                let k = choose|k: int| 0 <= k < sub.len() && sub[k] == lines[i];
                assert(out[k] == lines[i]);
            }
        }
    }
}

/// One scan is like another: with the pattern and the lines fixed, any two
/// outputs of the scan are the same, so running it twice changes nothing.
pub proof fn lemma_scan_idempotent(
    pattern: Seq<char>,
    lines: Seq<Seq<char>>,
    first: Seq<Seq<char>>,
    second: Seq<Seq<char>>,
)
    ensures
        first == matching_lines(pattern, lines) && second == matching_lines(pattern, lines)
            ==> first == second,
{
}

} // verus!
