use vstd::prelude::*;

verus! {

pub uninterp spec fn lines_of(s: Seq<char>) -> Seq<Seq<char>>;

pub uninterp spec fn trim_of(s: Seq<char>) -> Seq<char>;

pub uninterp spec fn u32_of(s: Seq<char>) -> Option<u32>;

/// Relies on str::lines: the lines of `s` depend on its characters alone.
#[verifier::external_body]
fn split_lines(s: &str) -> (r: Vec<String>)
    ensures
        r@.map_values(|x: String| x@) == lines_of(s@),
{
    s.lines().map(|l| l.to_owned()).collect()
}

/// Relies on str::trim: the trimmed text depends on the characters alone.
#[verifier::external_body]
fn trim(s: &str) -> (r: String)
    ensures
        r@ == trim_of(s@),
{
    s.trim().to_owned()
}

/// Relies on `str::parse::<u32>`: the decimal value, or an error, depends on
/// the characters alone.
#[verifier::external_body]
fn parse_u32(s: &str) -> (r: Option<u32>)
    ensures
        r == u32_of(s@),
{
    s.parse::<u32>().ok()
}

/// The pids named by a listener listing: one per line that holds a decimal
/// number once trimmed; other lines are skipped.
pub open spec fn pids_of_lines(lines: Seq<Seq<char>>) -> Seq<u32>
    decreases lines.len(),
{
    if lines.len() == 0 {
        Seq::empty()
    } else {
        let rest = pids_of_lines(lines.drop_last());
        match u32_of(trim_of(lines.last())) {
            Some(p) => rest.push(p),
            None => rest,
        }
    }
}

/// The pids named by the given lines, in their order.
pub fn pids_from_lines(lines: &Vec<String>) -> (r: Vec<u32>)
    ensures
        r@ == pids_of_lines(lines@.map_values(|x: String| x@)),
{
    let ghost all = lines@.map_values(|x: String| x@);
    let mut r: Vec<u32> = Vec::new();
    let mut i: usize = 0;
    while i < lines.len()
        invariant
            0 <= i <= lines@.len(),
            all == lines@.map_values(|x: String| x@),
            r@ == pids_of_lines(all.take(i as int)),
        decreases lines@.len() - i,
    {
        let t = trim(lines[i].as_str());
        let got = parse_u32(t.as_str());
        assert(all.take(i + 1).drop_last() =~= all.take(i as int));
        assert(all.take(i + 1).last() == lines@[i as int]@);
        match got {
            Some(p) => r.push(p),
            None => {},
        }
        i = i + 1;
    }
    assert(all.take(i as int) =~= all);
    r
}

/// The pids in the output of a listener listing, one number per line.
pub fn parse_pids(output: &str) -> (r: Vec<u32>)
    ensures
        r@ == pids_of_lines(lines_of(output@)),
{
    let lines = split_lines(output);
    pids_from_lines(&lines)
}

} // verus!
