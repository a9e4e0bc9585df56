//! Splitting a serial-feed line into its comma-separated fields.

use vstd::prelude::*;
use vstd::string::*;

verus! {

/// The separator between the fields of a serial-feed line.
pub const SEPARATOR: char = ',';

/// The pieces of `s` between occurrences of `sep`, in order. Like `str::split`,
/// an empty line has one empty piece and a trailing separator ends in an
/// empty piece.
pub open spec fn split_on(s: Seq<char>, sep: char) -> Seq<Seq<char>>
    decreases s.len(),
{
    if s.len() == 0 {
        seq![Seq::<char>::empty()]
    } else {
        let rest = split_on(s.drop_last(), sep);
        if s.last() == sep {
            rest.push(Seq::<char>::empty())
        } else {
            rest.update(rest.len() - 1, rest.last().push(s.last()))
        }
    }
}

/// There is always at least one piece.
pub proof fn lemma_split_on_nonempty(s: Seq<char>, sep: char)
    ensures
        split_on(s, sep).len() >= 1,
    decreases s.len(),
{
    if s.len() > 0 {
        lemma_split_on_nonempty(s.drop_last(), sep);
    }
}

/// Splits a serial-feed line at each comma. The pieces are returned as they
/// stand, without trimming: a piece that does not read as a number is later
/// taken as an absent value.
pub fn split_fields(line: &str) -> (r: Vec<String>)
    ensures
        r@.map_values(|p: String| p@) == split_on(line@, SEPARATOR),
{
    let n = line.unicode_len();
    let mut out: Vec<String> = Vec::new();
    let mut start: usize = 0;
    let mut i: usize = 0;
    assert(line@.subrange(0, 0) =~= Seq::<char>::empty());
    assert(out@.map_values(|p: String| p@).push(line@.subrange(0, 0)) =~= seq![
        Seq::<char>::empty(),
    ]);
    while i < n
        invariant
            n == line@.len(),
            start <= i <= n,
            out@.map_values(|p: String| p@).push(line@.subrange(start as int, i as int))
                == split_on(line@.subrange(0, i as int), SEPARATOR),
        decreases n - i,
    {
        let c = line.get_char(i);
        let ghost prev = line@.subrange(0, i as int);
        let ghost next = line@.subrange(0, i + 1);
        assert(next.drop_last() =~= prev);
        assert(next.last() == c);
        proof {
            lemma_split_on_nonempty(prev, SEPARATOR);
        }
        if c == SEPARATOR {
            let piece = line.substring_char(start, i);
            let ghost before = out@.map_values(|p: String| p@);
            out.push(String::from_str(piece));
            assert(out@.map_values(|p: String| p@) =~= before.push(piece@));
            assert(line@.subrange((i + 1) as int, (i + 1) as int) =~= Seq::<char>::empty());
            start = i + 1;
        } else {
            let ghost before = out@.map_values(|p: String| p@);
            assert(line@.subrange(start as int, i + 1) =~= line@.subrange(
                start as int,
                i as int,
            ).push(c));
            assert(before.push(line@.subrange(start as int, i + 1)) =~= before.push(
                line@.subrange(start as int, i as int),
            ).update(before.len() as int, line@.subrange(start as int, i as int).push(c)));
        }
        i = i + 1;
    }
    let piece = line.substring_char(start, n);
    let ghost before = out@.map_values(|p: String| p@);
    out.push(String::from_str(piece));
    assert(out@.map_values(|p: String| p@) =~= before.push(piece@));
    assert(line@.subrange(0, n as int) =~= line@);
    out
}

} // verus!
