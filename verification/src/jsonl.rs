//! Framing of the line-delimited persistence format: one record per line,
//! blank lines ignored.  Turning a record's bytes into an item, and back,
//! happens outside the library; this module fixes exactly how records and
//! raw bytes correspond.

use vstd::prelude::*;

verus! {

/// A byte of ASCII whitespace.
pub open spec fn is_ws_byte(b: u8) -> bool {
    b == 32 || b == 9 || b == 10 || b == 11 || b == 12 || b == 13
}

/// A line of nothing but ASCII whitespace.
pub open spec fn spec_blank_line(line: Seq<u8>) -> bool {
    forall|i: int| 0 <= i < line.len() ==> is_ws_byte(#[trigger] line[i])
}

/// The line with one trailing carriage return removed, if it ends in one.
pub open spec fn strip_cr(line: Seq<u8>) -> Seq<u8> {
    if line.len() > 0 && line.last() == 13 {
        line.drop_last()
    } else {
        line
    }
}

/// Position of the first newline byte, or the length when there is none.
pub open spec fn first_newline(data: Seq<u8>) -> int
    decreases data.len(),
{
    if data.len() == 0 {
        0
    } else if data[0] == 10 {
        0
    } else {
        1 + first_newline(data.drop_first())
    }
}

/// The first newline position lies in `[0, len]`, the byte there is a
/// newline when in range, and no earlier byte is one.
pub proof fn lemma_first_newline(data: Seq<u8>)
    ensures
        0 <= first_newline(data) <= data.len(),
        first_newline(data) < data.len() ==> data[first_newline(data)] == 10,
        forall|j: int| 0 <= j < first_newline(data) ==> data[j] != 10,
    decreases data.len(),
{
    if data.len() > 0 && data[0] != 10 {
        let rest = data.drop_first();
        lemma_first_newline(rest);
        assert(forall|j: int| 0 < j < data.len() ==> data[j] == rest[j - 1]);
    }
}

/// The lines of a byte text, split on newline, without the separators.
pub open spec fn spec_split_lines(data: Seq<u8>) -> Seq<Seq<u8>>
    decreases data.len(),
{
    if data.len() == 0 {
        Seq::empty()
    } else {
        let i = first_newline(data);
        if 0 <= i < data.len() {
            seq![data.subrange(0, i)] + spec_split_lines(
                data.subrange(i + 1, data.len() as int),
            )
        } else {
            seq![data]
        }
    }
}

/// The records among a list of lines: each line loses one trailing
/// carriage return, and blank lines are dropped.
pub open spec fn spec_clean_records(lines: Seq<Seq<u8>>) -> Seq<Seq<u8>>
    decreases lines.len(),
{
    if lines.len() == 0 {
        Seq::empty()
    } else {
        let line = strip_cr(lines.first());
        let rest = spec_clean_records(lines.drop_first());
        if spec_blank_line(line) {
            rest
        } else {
            seq![line] + rest
        }
    }
}

/// The records a byte text holds.
pub open spec fn spec_records(data: Seq<u8>) -> Seq<Seq<u8>> {
    spec_clean_records(spec_split_lines(data))
}

/// The bytes that a list of records writes: each record followed by one
/// newline.
pub open spec fn spec_joined(lines: Seq<Seq<u8>>) -> Seq<u8>
    decreases lines.len(),
{
    if lines.len() == 0 {
        Seq::empty()
    } else {
        lines.first() + seq![10u8] + spec_joined(lines.drop_first())
    }
}

/// A record that survives framing untouched: not blank, free of newline
/// bytes, and not ending in a carriage return.
pub open spec fn spec_wellformed_record(line: Seq<u8>) -> bool {
    &&& !spec_blank_line(line)
    &&& (forall|i: int| 0 <= i < line.len() ==> #[trigger] line[i] != 10)
    &&& (line.len() > 0 ==> line.last() != 13)
}

/// Round trip: writing well-formed records and reading the bytes back
/// yields the same records, in the same order.
pub proof fn lemma_records_round_trip(lines: Seq<Seq<u8>>)
    requires
        forall|i: int| 0 <= i < lines.len() ==> spec_wellformed_record(#[trigger] lines[i]),
    ensures
        spec_records(spec_joined(lines)) == lines,
    decreases lines.len(),
{
    if lines.len() == 0 {
        assert(spec_records(spec_joined(lines)) =~~= lines);
    } else {
        let line0 = lines.first();
        let rest = lines.drop_first();
        let joined = spec_joined(lines);
        let l0 = line0.len() as int;
        assert(forall|i: int| 0 <= i < rest.len() ==> rest[i] == lines[i + 1]);
        assert(joined =~= line0 + seq![10u8] + spec_joined(rest));
        assert(joined.len() > 0);
        assert(joined[l0] == 10);
        assert(forall|j: int| 0 <= j < l0 ==> joined[j] == line0[j]);

        lemma_first_newline(joined);
        let fnl = first_newline(joined);
        assert(fnl == l0) by {
            if fnl < l0 {
                assert(joined[fnl] == 10);
                assert(line0[fnl] != 10);
            }
            if fnl > l0 {
                assert(joined[l0] != 10);
            }
        }

        assert(joined.subrange(0, l0) =~= line0);
        assert(joined.subrange(l0 + 1, joined.len() as int) =~= spec_joined(rest));
        let split = spec_split_lines(joined);
        assert(split == seq![line0] + spec_split_lines(spec_joined(rest)));
        assert(split.first() == line0);
        assert(split.drop_first() =~~= spec_split_lines(spec_joined(rest)));
        assert(strip_cr(line0) == line0);

        lemma_records_round_trip(rest);
        assert(spec_records(joined) =~~= seq![line0] + rest);
        assert(seq![line0] + rest =~~= lines);
    }
}

/// Splits a byte text into its records: lines without their separators
/// and without one trailing carriage return each, blank lines dropped.
pub fn split_records(data: &Vec<u8>) -> (r: Vec<Vec<u8>>)
    ensures
        r.deep_view() == spec_records(data@),
{
    let n = data.len();
    let mut out: Vec<Vec<u8>> = Vec::new();
    let mut p: usize = 0;
    proof {
        assert(data@.subrange(0, n as int) =~= data@);
        assert(out.deep_view() =~~= Seq::<Seq<u8>>::empty());
        assert(spec_records(data@) =~~= out.deep_view() + spec_records(
            data@.subrange(0, n as int),
        ));
    }
    while p < n
        invariant
            n == data@.len(),
            0 <= p <= n,
            spec_records(data@) =~~= out.deep_view() + spec_records(
                data@.subrange(p as int, n as int),
            ),
        decreases n - p,
    {
        let ghost remaining = data@.subrange(p as int, n as int);
        proof {
            lemma_first_newline(remaining);
        }
        // scan to the next newline
        let mut j: usize = p;
        while j < n && data[j] != 10
            invariant
                n == data@.len(),
                p <= j <= n,
                forall|k: int| p <= k < j ==> data@[k] != 10,
            decreases n - j,
        {
            j = j + 1;
        }
        proof {
            assert(forall|k: int| 0 <= k < j - p ==> remaining[k] == data@[k + p]);
            if j < n {
                assert(remaining[j - p] == 10);
                assert(first_newline(remaining) == j - p) by {
                    lemma_first_newline(remaining);
                    if first_newline(remaining) < j - p {
                        assert(remaining[first_newline(remaining)] == 10);
                    }
                    if first_newline(remaining) > j - p {
                        assert(remaining[j - p] != 10);
                    }
                }
            } else {
                assert(first_newline(remaining) == n - p) by {
                    lemma_first_newline(remaining);
                    if first_newline(remaining) < n - p {
                        assert(data@[first_newline(remaining) + p] == 10);
                    }
                }
            }
        }

        // copy the line p..j
        let mut line: Vec<u8> = Vec::new();
        let mut k: usize = p;
        while k < j
            invariant
                n == data@.len(),
                p <= k <= j <= n,
                line@ == data@.subrange(p as int, k as int),
            decreases j - k,
        {
            line.push(data[k]);
            proof {
                assert(data@.subrange(p as int, k + 1) =~= data@.subrange(p as int, k as int).push(
                    data@[k as int],
                ));
            }
            k = k + 1;
        }

        // strip one trailing carriage return
        if line.len() > 0 && line[line.len() - 1] == 13 {
            line.pop();
            proof {
                assert(line@ =~= strip_cr(data@.subrange(p as int, j as int)));
            }
        }
        proof {
            assert(line@ =~= strip_cr(data@.subrange(p as int, j as int)));
        }

        // keep the line unless it is blank
        let mut blank = true;
        let mut b: usize = 0;
        while b < line.len()
            invariant
                0 <= b <= line@.len(),
                blank == (forall|t: int| 0 <= t < b ==> is_ws_byte(#[trigger] line@[t])),
            decreases line@.len() - b,
        {
            let c = line[b];
            if !(c == 32 || c == 9 || c == 10 || c == 11 || c == 12 || c == 13) {
                blank = false;
                assert(!is_ws_byte(line@[b as int]));
                assert(!(forall|t: int| 0 <= t < b + 1 ==> is_ws_byte(#[trigger] line@[t])));
                // a later byte cannot make the line blank again
                proof {
                    assert(forall|t: int|
                        0 <= t < line@.len() && !is_ws_byte(line@[t as int]) ==> !spec_blank_line(
                            line@,
                        ));
                }
                b = line.len();
            } else {
                b = b + 1;
            }
        }
        proof {
            if blank {
                assert(spec_blank_line(line@));
            } else {
                assert(!spec_blank_line(line@));
            }
        }

        let ghost out0 = out.deep_view();
        if !blank {
            out.push(line);
            proof {
                assert(out.deep_view() =~~= out0.push(strip_cr(data@.subrange(p as int, j as int))));
            }
        }

        // step the invariant over this line
        proof {
            let i = first_newline(remaining);
            assert(remaining.subrange(0, i) =~= data@.subrange(p as int, j as int));
            if j < n {
                assert(remaining.subrange(i + 1, remaining.len() as int) =~= data@.subrange(
                    j + 1,
                    n as int,
                ));
                assert(spec_split_lines(remaining) == seq![remaining.subrange(0, i)]
                    + spec_split_lines(data@.subrange(j + 1, n as int)));
                let lines = spec_split_lines(remaining);
                assert(lines.first() == remaining.subrange(0, i));
                assert(lines.drop_first() =~~= spec_split_lines(data@.subrange(j + 1, n as int)));
            } else {
                assert(spec_split_lines(remaining) == seq![remaining]);
                let lines = spec_split_lines(remaining);
                assert(lines.first() == remaining);
                assert(remaining =~= data@.subrange(p as int, j as int));
                assert(lines.drop_first() =~~= Seq::<Seq<u8>>::empty());
                assert(spec_clean_records(lines.drop_first()) == Seq::<Seq<u8>>::empty());
            }
            assert(spec_records(data@) =~~= out.deep_view() + spec_records(
                data@.subrange(if j < n { j + 1 } else { n as int }, n as int),
            ));
        }

        p = if j < n {
            j + 1
        } else {
            n
        };
    }
    proof {
        assert(data@.subrange(n as int, n as int) =~= Seq::<u8>::empty());
        assert(spec_records(data@.subrange(n as int, n as int)) =~~= Seq::<Seq<u8>>::empty());
        assert(out.deep_view() =~~= spec_records(data@));
    }
    out
}

/// Writes a list of records as bytes: each record followed by one
/// newline.
pub fn join_records(lines: &Vec<Vec<u8>>) -> (r: Vec<u8>)
    ensures
        r@ == spec_joined(lines.deep_view()),
{
    let n = lines.len();
    let ghost dv = lines.deep_view();
    let mut out: Vec<u8> = Vec::new();
    let mut i: usize = 0;
    proof {
        assert(dv.subrange(0, n as int) =~= dv);
        assert(out@ + spec_joined(dv.subrange(0, n as int)) =~= spec_joined(dv));
    }
    while i < n
        invariant
            n == lines@.len(),
            dv == lines.deep_view(),
            dv.len() == n,
            0 <= i <= n,
            spec_joined(dv) =~= out@ + spec_joined(dv.subrange(i as int, n as int)),
        decreases n - i,
    {
        let ghost out0 = out@;
        let line_len = lines[i].len();
        let mut k: usize = 0;
        while k < line_len
            invariant
                i < lines@.len(),
                dv == lines.deep_view(),
                line_len == lines@[i as int]@.len(),
                0 <= k <= line_len,
                out@ == out0 + lines@[i as int]@.subrange(0, k as int),
            decreases line_len - k,
        {
            out.push(lines[i][k]);
            proof {
                assert(lines@[i as int]@.subrange(0, k + 1) =~= lines@[i as int]@.subrange(
                    0,
                    k as int,
                ).push(lines@[i as int]@[k as int]));
            }
            k = k + 1;
        }
        out.push(10);
        proof {
            let rem = dv.subrange(i as int, n as int);
            assert(rem.first() == dv[i as int]);
            assert(dv[i as int] == lines@[i as int]@);
            assert(rem.drop_first() =~= dv.subrange(i + 1, n as int));
            assert(lines@[i as int]@.subrange(0, line_len as int) =~= lines@[i as int]@);
            assert(out@ =~= out0 + lines@[i as int]@ + seq![10u8]);
            assert(spec_joined(dv) =~= out@ + spec_joined(dv.subrange(i + 1, n as int)));
        }
        i = i + 1;
    }
    proof {
        assert(dv.subrange(n as int, n as int) =~= Seq::<Seq<u8>>::empty());
        assert(out@ =~= spec_joined(dv));
    }
    out
}

} // verus!
