//! Splitting captured process output into lines.
//!
//! The backup tool emits one JSON record per line; only the last line is the
//! terminal summary or error record, while earlier lines are diagnostic. A
//! line ends at a line feed, and a carriage return immediately before a line
//! feed belongs to the terminator, not to the line. A terminator at the very
//! end of the text does not open a final empty line.

use vstd::prelude::*;

verus! {

/// The line-feed byte that terminates a line.
pub open spec fn is_line_feed(b: u8) -> bool {
    b == 10u8
}

/// Drops a carriage return standing last in a line body.
pub open spec fn strip_cr(t: Seq<u8>) -> Seq<u8> {
    if t.len() > 0 && t.last() == 13u8 {
        t.drop_last()
    } else {
        t
    }
}

/// Index of the first line feed in `s`, or `s.len()` if there is none.
pub open spec fn first_lf(s: Seq<u8>) -> nat
    decreases s.len(),
{
    if s.len() == 0 {
        0
    } else if is_line_feed(s.first()) {
        0
    } else {
        1 + first_lf(s.drop_first())
    }
}

pub proof fn lemma_first_lf_le(s: Seq<u8>)
    ensures
        first_lf(s) <= s.len(),
    decreases s.len(),
{
    if s.len() > 0 && !is_line_feed(s.first()) {
        lemma_first_lf_le(s.drop_first());
    }
}

/// `first_lf` is the least index of a line feed: no byte before it is a line
/// feed, and the byte at it (when inside the text) is one.
pub proof fn lemma_first_lf_is_first(s: Seq<u8>)
    ensures
        first_lf(s) <= s.len(),
        forall|i: int| 0 <= i < first_lf(s) ==> !is_line_feed(s[i]),
        first_lf(s) < s.len() ==> is_line_feed(s[first_lf(s) as int]),
    decreases s.len(),
{
    lemma_first_lf_le(s);
    if s.len() > 0 && !is_line_feed(s.first()) {
        lemma_first_lf_is_first(s.drop_first());
        assert forall|i: int| 0 <= i < first_lf(s) implies !is_line_feed(s[i]) by {
            if i > 0 {
                assert(s[i] == s.drop_first()[i - 1]);
            }
        }
        if first_lf(s) < s.len() {
            assert(s[first_lf(s) as int] == s.drop_first()[first_lf(s.drop_first()) as int]);
        }
    }
}

/// The lines of `s`, in order.
pub open spec fn spec_lines(s: Seq<u8>) -> Seq<Seq<u8>>
    decreases s.len(),
{
    if s.len() == 0 {
        Seq::empty()
    } else {
        let k = first_lf(s) as int;
        if k >= s.len() {
            seq![s]
        } else {
            seq![strip_cr(s.take(k))] + spec_lines(s.skip(k + 1))
        }
    }
}

/// Splits captured output into its lines.
pub fn split_lines(s: &[u8]) -> (r: Vec<Vec<u8>>)
    ensures
        r@.map_values(|l: Vec<u8>| l@) == spec_lines(s@),
{
    let ghost whole: Seq<Seq<u8>> = spec_lines(s@);
    let mut r: Vec<Vec<u8>> = Vec::new();
    let mut pos: usize = 0;
    proof {
        assert(s@.skip(0) =~= s@);
    }
    while pos < s.len()
        invariant
            pos <= s@.len(),
            r@.map_values(|l: Vec<u8>| l@) + spec_lines(s@.skip(pos as int)) =~= spec_lines(s@),
        decreases s@.len() - pos,
    {
        let ghost rest = s@.skip(pos as int);
        // scan for the next line feed
        let mut j: usize = pos;
        while j < s.len() && s[j] != 10u8
            invariant
                pos <= j <= s@.len(),
                forall|i: int| pos <= i < j ==> !is_line_feed(s@[i]),
            decreases s@.len() - j,
        {
            j += 1;
        }
        proof {
            lemma_first_lf_is_first(rest);
            assert forall|i: int| 0 <= i < j - pos implies !is_line_feed(rest[i]) by {
                assert(rest[i] == s@[pos + i]);
            }
            if j < s@.len() {
                assert(rest[j - pos] == s@[j as int]);
                assert(first_lf(rest) == j - pos) by {
                    if first_lf(rest) < j - pos {
                        assert(!is_line_feed(rest[first_lf(rest) as int]));
                    }
                }
            } else {
                assert(first_lf(rest) == rest.len()) by {
                    if first_lf(rest) < rest.len() {
                        assert(is_line_feed(rest[first_lf(rest) as int]));
                        assert(rest[first_lf(rest) as int] == s@[pos + first_lf(rest)]);
                    }
                }
            }
        }
        if j >= s.len() {
            // final line, no terminator
            let line = vstd::slice::slice_to_vec(vstd::slice::slice_subrange(s, pos, j));
            proof {
                assert(line@ =~= rest);
                assert(spec_lines(rest) =~= seq![rest]);
            }
            r.push(line);
            pos = j;
            proof {
                assert(s@.skip(pos as int) =~= Seq::<u8>::empty());
                assert(r@.map_values(|l: Vec<u8>| l@) + spec_lines(s@.skip(pos as int))
                    =~= spec_lines(s@));
            }
        } else {
            // line body runs up to the line feed, minus a carriage return
            let body_end: usize = if j > pos && s[j - 1] == 13u8 {
                j - 1
            } else {
                j
            };
            let line = vstd::slice::slice_to_vec(vstd::slice::slice_subrange(s, pos, body_end));
            proof {
                let k = first_lf(rest) as int;
                assert(rest.take(k) =~= s@.subrange(pos as int, j as int));
                if j > pos && s@[j - 1] == 13u8 {
                    assert(rest.take(k).last() == 13u8);
                    assert(strip_cr(rest.take(k)) =~= s@.subrange(pos as int, body_end as int));
                } else {
                    assert(strip_cr(rest.take(k)) =~= s@.subrange(pos as int, body_end as int));
                }
                assert(line@ =~= strip_cr(rest.take(k)));
                assert(rest.skip(k + 1) =~= s@.skip(j + 1));
                assert(spec_lines(rest) =~= seq![strip_cr(rest.take(k))] + spec_lines(
                    rest.skip(k + 1),
                ));
            }
            r.push(line);
            pos = j + 1;
            proof {
                assert(r@.map_values(|l: Vec<u8>| l@) + spec_lines(s@.skip(pos as int))
                    =~= spec_lines(s@));
            }
        }
    }
    proof {
        assert(s@.skip(pos as int) =~= Seq::<u8>::empty());
        assert(r@.map_values(|l: Vec<u8>| l@) =~= spec_lines(s@));
    }
    r
}

/// The last line of captured output, or `None` when there is none.
pub fn last_line(s: &[u8]) -> (r: Option<Vec<u8>>)
    ensures
        match r {
            Some(l) => spec_lines(s@).len() > 0 && l@ == spec_lines(s@).last(),
            None => spec_lines(s@).len() == 0,
        },
{
    let mut all = split_lines(s);
    let n = all.len();
    if n == 0 {
        None
    } else {
        let l = all.remove(n - 1);
        proof {
            assert(l@ == spec_lines(s@).last());
        }
        Some(l)
    }
}

} // verus!
