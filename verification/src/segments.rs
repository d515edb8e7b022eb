use vstd::prelude::*;
use vstd::string::*;
use vstd::utf8::*;

verus! {

/// The path separator, as the single byte that encodes `'/'`.
pub const SEPARATOR: u8 = 0x2f;

/// The number of bytes of `b` standing before its first separator.
pub open spec fn run_len(b: Seq<u8>) -> nat
    decreases b.len(),
{
    if b.len() == 0 || b[0] == SEPARATOR {
        0
    } else {
        (1 + run_len(b.drop_first())) as nat
    }
}

/// `run_len(b)` points at the first separator of `b`: nothing before it is
/// a separator, and it is only short of `b`'s end when a separator follows.
pub proof fn lemma_run_len(b: Seq<u8>)
    ensures
        run_len(b) <= b.len(),
        forall|j: int| 0 <= j < run_len(b) ==> b[j] != SEPARATOR,
        run_len(b) < b.len() ==> b[run_len(b) as int] == SEPARATOR,
    decreases b.len(),
{
    if b.len() == 0 || b[0] == SEPARATOR {
    } else {
        lemma_run_len(b.drop_first());
        assert forall|j: int| 0 <= j < run_len(b) implies b[j] != SEPARATOR by {
            if j > 0 {
                assert(b.drop_first()[j - 1] == b[j]);
            }
        }
        if run_len(b) < b.len() {
            assert(b.drop_first()[run_len(b) as int - 1] == b[run_len(b) as int]);
        }
    }
}

/// An index bounded by a separator-free prefix, and sitting on a separator
/// or at the end, is exactly `run_len`.
pub proof fn lemma_run_len_is(b: Seq<u8>, i: int)
    requires
        0 <= i <= b.len(),
        forall|j: int| 0 <= j < i ==> b[j] != SEPARATOR,
        i < b.len() ==> b[i] == SEPARATOR,
    ensures
        run_len(b) == i,
    decreases b.len(),
{
    if i == 0 {
    } else {
        assert(b[0] != SEPARATOR);
        assert forall|j: int| 0 <= j < i - 1 implies b.drop_first()[j] != SEPARATOR by {
            assert(b.drop_first()[j] == b[j + 1]);
        }
        if i - 1 < b.drop_first().len() {
            assert(b.drop_first()[i - 1] == b[i]);
        }
        lemma_run_len_is(b.drop_first(), i - 1);
    }
}

/// The non-empty stretches of `b` between separators, in order.
pub open spec fn segments_of(b: Seq<u8>) -> Seq<Seq<u8>>
    decreases b.len(),
    via segments_of_decreases
{
    if b.len() == 0 {
        Seq::empty()
    } else if b[0] == SEPARATOR {
        segments_of(b.drop_first())
    } else {
        seq![b.take(run_len(b) as int)] + segments_of(b.skip(run_len(b) as int))
    }
}

#[via_fn]
proof fn segments_of_decreases(b: Seq<u8>) {
    lemma_run_len(b);
}

/// The UTF-8 encodings of the texts of a sequence of strings.
pub open spec fn string_bytes(segs: Seq<String>) -> Seq<Seq<u8>> {
    segs.map_values(|s: String| encode_utf8(s@))
}

/// The texts of a sequence of strings.
pub open spec fn string_views(segs: Seq<String>) -> Seq<Seq<char>> {
    segs.map_values(|s: String| s@)
}

/// Unfolds `segments_of` one whole segment at a time: a leading separator
/// is skipped; a leading separator-free run is one segment, followed by the
/// segments of what stands beyond the separator that ends it.
pub proof fn lemma_segments_step(b: Seq<u8>)
    requires
        b.len() > 0,
    ensures
        b[0] == SEPARATOR ==> segments_of(b) == segments_of(b.skip(1)),
        b[0] != SEPARATOR && run_len(b) == b.len() ==> segments_of(b) == seq![b],
        b[0] != SEPARATOR && run_len(b) < b.len() ==> segments_of(b) == seq![
            b.take(run_len(b) as int),
        ] + segments_of(b.skip(run_len(b) as int + 1)),
{
    reveal_with_fuel(segments_of, 3);
    lemma_run_len(b);
    if b[0] == SEPARATOR {
        assert(b.drop_first() =~= b.skip(1));
    } else if run_len(b) == b.len() {
        let r = run_len(b) as int;
        assert(b.take(r) =~= b);
        assert(b.skip(r) =~= Seq::<u8>::empty());
        assert(segments_of(b.skip(r)) == Seq::<Seq<u8>>::empty());
        assert(seq![b] + Seq::<Seq<u8>>::empty() =~~= seq![b]);
    } else {
        let r = run_len(b) as int;
        let rest = b.skip(r);
        assert(rest[0] == SEPARATOR);
        assert(segments_of(rest) == segments_of(rest.drop_first()));
        assert(rest.drop_first() =~= b.skip(r + 1));
    }
}

/// Every segment is non-empty and free of separators.
pub proof fn lemma_segments_wf(b: Seq<u8>)
    ensures
        forall|k: int|
            0 <= k < segments_of(b).len() ==> (#[trigger] segments_of(b)[k]).len() > 0
                && !segments_of(b)[k].contains(SEPARATOR),
    decreases b.len(),
{
    lemma_run_len(b);
    if b.len() == 0 {
    } else if b[0] == SEPARATOR {
        lemma_segments_wf(b.drop_first());
        assert forall|k: int| 0 <= k < segments_of(b).len() implies (#[trigger] segments_of(
            b,
        )[k]).len() > 0 && !segments_of(b)[k].contains(SEPARATOR) by {
            assert(segments_of(b)[k] == segments_of(b.drop_first())[k]);
        }
    } else {
        let r = run_len(b) as int;
        let head = b.take(r);
        lemma_segments_wf(b.skip(r));
        assert(!head.contains(SEPARATOR)) by {
            assert forall|j: int| 0 <= j < head.len() implies head[j] != SEPARATOR by {
                assert(head[j] == b[j]);
            }
        }
        assert forall|k: int| 0 <= k < segments_of(b).len() implies (#[trigger] segments_of(
            b,
        )[k]).len() > 0 && !segments_of(b)[k].contains(SEPARATOR) by {
            if k == 0 {
                assert(segments_of(b)[0] == head);
            } else {
                assert(segments_of(b)[k] == segments_of(b.skip(r))[k - 1]);
            }
        }
    }
}

/// A leading separator contributes no segment.
pub proof fn lemma_segments_leading_separator(b: Seq<u8>)
    ensures
        segments_of(seq![SEPARATOR] + b) == segments_of(b),
{
    let c = seq![SEPARATOR] + b;
    assert(c[0] == SEPARATOR);
    assert(c.drop_first() =~= b);
}

/// A trailing separator contributes no segment.
pub proof fn lemma_segments_trailing_separator(b: Seq<u8>)
    ensures
        segments_of(b + seq![SEPARATOR]) == segments_of(b),
    decreases b.len(),
{
    reveal_with_fuel(segments_of, 3);
    let c = b + seq![SEPARATOR];
    if b.len() == 0 {
        assert(c[0] == SEPARATOR);
        assert(c.drop_first() =~= Seq::<u8>::empty());
        assert(segments_of(c) == segments_of(Seq::<u8>::empty()));
    } else if b[0] == SEPARATOR {
        assert(c[0] == SEPARATOR);
        assert(c.drop_first() =~= b.drop_first() + seq![SEPARATOR]);
        lemma_segments_trailing_separator(b.drop_first());
    } else {
        lemma_run_len(b);
        let r = run_len(b) as int;
        assert forall|j: int| 0 <= j < r implies c[j] != SEPARATOR by {
            assert(c[j] == b[j]);
        }
        if r == b.len() {
            lemma_run_len_is(c, r);
            assert(c.take(r) =~= b);
            assert(c.skip(r) =~= seq![SEPARATOR]);
            assert(seq![SEPARATOR][0] == SEPARATOR);
            assert(seq![SEPARATOR].drop_first() =~= Seq::<u8>::empty());
            assert(segments_of(c.skip(r)) == Seq::<Seq<u8>>::empty());
            lemma_segments_step(b);
            assert(segments_of(c) =~~= seq![b]);
        } else {
            assert(c[r] == b[r]);
            lemma_run_len_is(c, r);
            assert(c.take(r) =~= b.take(r));
            assert(c.skip(r) =~= b.skip(r) + seq![SEPARATOR]);
            lemma_segments_trailing_separator(b.skip(r));
        }
    }
}

/// After a leading separator byte, index 1 is a character boundary.
proof fn lemma_boundary_after_separator(b: Seq<u8>)
    requires
        valid_utf8(b),
        b.len() > 0,
        b[0] == SEPARATOR,
    ensures
        is_char_boundary(b, 1),
{
    assert(is_leading_byte_width_1(b[0]));
    assert(length_of_first_scalar(b) == 1);
    reveal_with_fuel(is_char_boundary, 2);
}

/// The segments of an action path: the non-empty stretches of its text
/// between `'/'` separators, in order, each returned as its own string.
/// Leading, trailing and doubled separators contribute nothing.
pub fn path_segments(action: &str) -> (segs: Vec<String>)
    ensures
        string_bytes(segs@) == segments_of(encode_utf8(action@)),
{
    let mut segs: Vec<String> = Vec::new();
    let mut rem: &str = action;
    proof {
        assert(string_bytes(segs@) + segments_of(encode_utf8(action@)) =~~= segments_of(
            encode_utf8(action@),
        ));
    }
    while !rem.is_empty()
        invariant
            string_bytes(segs@) + segments_of(rem.spec_bytes()) == segments_of(
                action.spec_bytes(),
            ),
        decreases rem.spec_bytes().len(),
    {
        let ghost b = rem.spec_bytes();
        let ghost pushed = string_bytes(segs@);
        proof {
            encode_utf8_valid_utf8(rem@);
            assert(valid_utf8(b));
            if b.len() == 0 {
                encode_utf8_decode_utf8(rem@);
                assert(decode_utf8(b) =~= Seq::<char>::empty());
                assert(false);
            }
        }
        let bytes: Vec<u8> = rem.as_bytes_vec();
        let mut i: usize = 0;
        while i < bytes.len() && bytes[i] != SEPARATOR
            invariant
                bytes@ == b,
                i <= bytes@.len(),
                forall|j: int| 0 <= j < i ==> b[j] != SEPARATOR,
            decreases bytes@.len() - i,
        {
            i = i + 1;
        }
        proof {
            lemma_run_len_is(b, i as int);
            lemma_segments_step(b);
        }
        if i == bytes.len() {
            segs.push(rem.to_owned());
            rem = "";
            proof {
                reveal_strlit("");
                assert(rem@ =~= Seq::<char>::empty());
                assert(encode_utf8(rem@) =~= Seq::<u8>::empty());
                assert(segments_of(rem.spec_bytes()) == Seq::<Seq<u8>>::empty());
                assert(string_bytes(segs@) =~~= pushed.push(b));
                assert(pushed.push(b) + Seq::<Seq<u8>>::empty() =~~= pushed + seq![b]);
                assert(pushed + (seq![b] + Seq::<Seq<u8>>::empty()) =~~= pushed + seq![b]);
            }
        } else {
            proof {
                assert(b[i as int] == SEPARATOR);
                assert(!is_continuation_byte(b[i as int]));
                is_char_boundary_iff_not_is_continuation_byte(b, i as int);
            }
            let (seg, tail) = rem.split_at(i);
            proof {
                valid_utf8_split(b, i as int);
                assert(tail.spec_bytes() =~= b.skip(i as int));
                assert(tail.spec_bytes()[0] == b[i as int]);
                lemma_boundary_after_separator(tail.spec_bytes());
            }
            let (_, rest) = tail.split_at(1);
            proof {
                assert(rest.spec_bytes() =~= b.skip(i + 1));
                assert(seg.spec_bytes() =~= b.take(i as int));
            }
            if i > 0 {
                segs.push(seg.to_owned());
                proof {
                    assert(string_bytes(segs@) =~~= pushed.push(b.take(i as int)));
                    assert(pushed.push(b.take(i as int)) + segments_of(b.skip(i + 1)) =~~= pushed
                        + (seq![b.take(i as int)] + segments_of(b.skip(i + 1))));
                }
            } else {
                proof {
                    assert(b.skip(1) =~= b.skip(i + 1));
                }
            }
            rem = rest;
        }
    }
    proof {
        assert(rem.spec_bytes() =~= Seq::<u8>::empty());
        assert(segments_of(rem.spec_bytes()) == Seq::<Seq<u8>>::empty());
        assert(string_bytes(segs@) + Seq::<Seq<u8>>::empty() =~~= string_bytes(segs@));
    }
    segs
}

} // verus!
