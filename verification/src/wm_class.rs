//! The window-class property: a run of text segments, each closed by a
//! zero byte. The application name is the last segment that is not empty.

use vstd::prelude::*;

verus! {

/// The segments of `bytes` when cut at every zero byte. A sequence with `n`
/// zero bytes has `n + 1` segments, some of which may be empty.
pub open spec fn segments(bytes: Seq<u8>) -> Seq<Seq<u8>>
    decreases bytes.len(),
{
    if bytes.len() == 0 {
        seq![Seq::<u8>::empty()]
    } else {
        let before = segments(bytes.drop_last());
        if bytes.last() == 0u8 {
            before.push(Seq::<u8>::empty())
        } else {
            before.drop_last().push(before.last().push(bytes.last()))
        }
    }
}

/// The last segment of `parts` that holds at least one byte, or the empty
/// sequence when every segment is empty.
pub open spec fn last_non_empty(parts: Seq<Seq<u8>>) -> Seq<u8>
    decreases parts.len(),
{
    if parts.len() == 0 {
        Seq::<u8>::empty()
    } else if parts.last().len() > 0 {
        parts.last()
    } else {
        last_non_empty(parts.drop_last())
    }
}

/// The first segment of `parts` that holds at least one byte, or the empty
/// sequence when every segment is empty.
pub open spec fn first_non_empty(parts: Seq<Seq<u8>>) -> Seq<u8>
    decreases parts.len(),
{
    if parts.len() == 0 {
        Seq::<u8>::empty()
    } else if parts.first().len() > 0 {
        parts.first()
    } else {
        first_non_empty(parts.drop_first())
    }
}

/// The bytes of the application name inside a window-class value: the last
/// non-empty segment if there is one, else the first non-empty segment, else
/// nothing.
pub open spec fn class_segment(bytes: Seq<u8>) -> Seq<u8> {
    let parts = segments(bytes);
    if last_non_empty(parts).len() > 0 {
        last_non_empty(parts)
    } else {
        first_non_empty(parts)
    }
}

/// When no segment holds a byte, looking from the front finds nothing either,
/// so the fallback to the first non-empty segment never changes the answer.
pub proof fn lemma_first_follows_last(parts: Seq<Seq<u8>>)
    requires
        last_non_empty(parts).len() == 0,
    ensures
        first_non_empty(parts).len() == 0,
{
    assert forall|i: int| 0 <= i < parts.len() implies (#[trigger] parts[i]).len() == 0 by {
        lemma_all_empty(parts, i);
    }
    lemma_none_found(parts);
}

/// If the search from the back finds nothing, every segment is empty.
proof fn lemma_all_empty(parts: Seq<Seq<u8>>, i: int)
    requires
        last_non_empty(parts).len() == 0,
        0 <= i < parts.len(),
    ensures
        parts[i].len() == 0,
    decreases parts.len(),
{
    if i < parts.len() - 1 {
        lemma_all_empty(parts.drop_last(), i);
    }
}

/// If every segment is empty, the search from the front finds nothing.
proof fn lemma_none_found(parts: Seq<Seq<u8>>)
    requires
        forall|i: int| 0 <= i < parts.len() ==> (#[trigger] parts[i]).len() == 0,
    ensures
        first_non_empty(parts).len() == 0,
    decreases parts.len(),
{
    if parts.len() > 0 {
        let rest = parts.drop_first();
        assert forall|i: int| 0 <= i < rest.len() implies (#[trigger] rest[i]).len() == 0 by {
            assert(rest[i] == parts[i + 1]);
        }
        lemma_none_found(rest);
    }
}

/// `bytes[from..to]` is the last run of non-zero bytes in `bytes`: it is not
/// empty, it holds no zero byte, it cannot be extended to the left, and only
/// zero bytes follow it.
pub open spec fn is_last_run(bytes: Seq<u8>, from: int, to: int) -> bool {
    &&& 0 <= from < to <= bytes.len()
    &&& forall|i: int| from <= i < to ==> bytes[i] != 0u8
    &&& from == 0 || bytes[from - 1] == 0u8
    &&& forall|i: int| to <= i < bytes.len() ==> bytes[i] == 0u8
}

/// Where the segment that is still open at the end of `bytes` begins.
spec fn open_from(bytes: Seq<u8>) -> int
    decreases bytes.len(),
{
    if bytes.len() == 0 {
        0
    } else if bytes.last() == 0u8 {
        bytes.len() as int
    } else {
        open_from(bytes.drop_last())
    }
}

/// The last segment is the stretch of non-zero bytes at the end of `bytes`.
proof fn lemma_open_segment(bytes: Seq<u8>)
    ensures
        segments(bytes).len() >= 1,
        0 <= open_from(bytes) <= bytes.len(),
        segments(bytes).last() == bytes.subrange(open_from(bytes), bytes.len() as int),
        forall|i: int| open_from(bytes) <= i < bytes.len() ==> bytes[i] != 0u8,
        open_from(bytes) == 0 || bytes[open_from(bytes) - 1] == 0u8,
    decreases bytes.len(),
{
    if bytes.len() > 0 {
        let init = bytes.drop_last();
        lemma_open_segment(init);
        if bytes.last() == 0u8 {
            assert(segments(bytes).last() == bytes.subrange(
                bytes.len() as int,
                bytes.len() as int,
            ));
        } else {
            assert(init.subrange(open_from(init), init.len() as int).push(bytes.last())
                == bytes.subrange(open_from(init), bytes.len() as int));
            assert forall|i: int| open_from(bytes) <= i < bytes.len() implies bytes[i]
                != 0u8 by {
                if i < init.len() {
                    assert(bytes[i] == init[i]);
                }
            }
            if open_from(init) > 0 {
                assert(bytes[open_from(init) - 1] == init[open_from(init) - 1]);
            }
        }
    } else {
        assert(segments(bytes).last() == bytes.subrange(0, 0));
    }
}

/// The last non-empty segment, found by cutting, is the last run of
/// non-zero bytes; where there is no such run, no segment holds a byte.
proof fn lemma_last_non_empty_is_last_run(bytes: Seq<u8>)
    ensures
        (forall|i: int| 0 <= i < bytes.len() ==> bytes[i] == 0u8) ==> last_non_empty(
            segments(bytes),
        ).len() == 0,
        forall|from: int, to: int| #[trigger]
            is_last_run(bytes, from, to) ==> last_non_empty(segments(bytes)) == bytes.subrange(
                from,
                to,
            ),
    decreases bytes.len(),
{
    lemma_open_segment(bytes);
    let parts = segments(bytes);
    if bytes.len() == 0 {
        assert(parts.drop_last().len() == 0);
        assert(last_non_empty(parts.drop_last()).len() == 0);
    } else {
        let init = bytes.drop_last();
        lemma_last_non_empty_is_last_run(init);
        lemma_open_segment(init);
        if bytes.last() == 0u8 {
            assert(parts.drop_last() == segments(init));
            assert(parts.last().len() == 0);
            assert(last_non_empty(parts) == last_non_empty(segments(init)));
            assert forall|from: int, to: int| #[trigger]
                is_last_run(bytes, from, to) implies last_non_empty(parts) == bytes.subrange(
                from,
                to,
            ) by {
                if to == bytes.len() {
                    assert(bytes[to - 1] != 0u8);
                }
                assert forall|i: int| from <= i < to implies init[i] != 0u8 by {
                    assert(init[i] == bytes[i]);
                }
                assert forall|i: int| to <= i < init.len() implies init[i] == 0u8 by {
                    assert(init[i] == bytes[i]);
                }
                if from > 0 {
                    assert(init[from - 1] == bytes[from - 1]);
                }
                assert(is_last_run(init, from, to));
                assert(init.subrange(from, to) == bytes.subrange(from, to));
            }
            if forall|i: int| 0 <= i < bytes.len() ==> bytes[i] == 0u8 {
                assert forall|i: int| 0 <= i < init.len() implies init[i] == 0u8 by {
                    assert(init[i] == bytes[i]);
                }
            }
        } else {
            let start = open_from(bytes);
            assert(parts.last().len() > 0);
            assert(last_non_empty(parts) == bytes.subrange(start, bytes.len() as int));
            assert(bytes[bytes.len() - 1] != 0u8);
            assert forall|from: int, to: int| #[trigger]
                is_last_run(bytes, from, to) implies last_non_empty(parts) == bytes.subrange(
                from,
                to,
            ) by {
                if to < bytes.len() {
                    assert(bytes[bytes.len() - 1] == 0u8);
                }
                if from < start {
                    assert(bytes[start - 1] != 0u8);
                }
                if start < from {
                    assert(bytes[from - 1] != 0u8);
                }
            }
        }
    }
}

/// The application name is the last run of non-zero bytes in the value, and
/// a value without a non-zero byte has none. So the name never holds a zero
/// byte, and it is empty only if the value holds nothing else.
pub proof fn lemma_class_segment_is_last_run(bytes: Seq<u8>)
    ensures
        (forall|i: int| 0 <= i < bytes.len() ==> bytes[i] == 0u8) ==> class_segment(bytes).len()
            == 0,
        forall|from: int, to: int| #[trigger]
            is_last_run(bytes, from, to) ==> class_segment(bytes) == bytes.subrange(from, to),
{
    lemma_last_non_empty_is_last_run(bytes);
    if last_non_empty(segments(bytes)).len() == 0 {
        lemma_first_follows_last(segments(bytes));
    }
    assert forall|from: int, to: int| #[trigger]
        is_last_run(bytes, from, to) implies class_segment(bytes) == bytes.subrange(from, to) by {
        assert(bytes.subrange(from, to).len() > 0);
    }
}

/// Copies `bytes[from..to]` into a fresh vector.
fn copy_range(bytes: &[u8], from: usize, to: usize) -> (out: Vec<u8>)
    requires
        from <= to <= bytes@.len(),
    ensures
        out@ == bytes@.subrange(from as int, to as int),
{
    let mut out: Vec<u8> = Vec::new();
    let mut i: usize = from;
    while i < to
        invariant
            from <= i <= to <= bytes@.len(),
            out@ == bytes@.subrange(from as int, i as int),
        decreases to - i,
    {
        out.push(bytes[i]);
        i += 1;
    }
    out
}

/// Finds the application name inside a window-class value.
///
/// One pass from the front keeps the bounds of the segment being read and of
/// the last completed segment that was not empty.
pub fn app_name_bytes(bytes: &[u8]) -> (name: Vec<u8>)
    ensures
        name@ == class_segment(bytes@),
{
    let n: usize = bytes.len();
    let mut start: usize = 0;
    let mut best_from: usize = 0;
    let mut best_to: usize = 0;
    let mut i: usize = 0;
    while i < n
        invariant
            n == bytes@.len(),
            start <= i <= n,
            best_from <= best_to <= i,
            segments(bytes@.take(i as int)).len() >= 1,
            segments(bytes@.take(i as int)).last() == bytes@.subrange(start as int, i as int),
            last_non_empty(segments(bytes@.take(i as int)).drop_last()) == bytes@.subrange(
                best_from as int,
                best_to as int,
            ),
        decreases n - i,
    {
        proof {
            let before = bytes@.take(i as int);
            let after = bytes@.take(i + 1);
            assert(after.drop_last() == before);
            assert(after.last() == bytes@[i as int]);
            if bytes@[i as int] == 0u8 {
                assert(segments(after).drop_last() == segments(before));
                assert(segments(after).last() == bytes@.subrange(i + 1, i + 1));
            } else {
                assert(segments(after).drop_last() == segments(before).drop_last());
                assert(segments(after).last() == bytes@.subrange(start as int, i + 1));
            }
        }
        if bytes[i] == 0 {
            if start < i {
                best_from = start;
                best_to = i;
            }
            start = i + 1;
        }
        i += 1;
    }
    proof {
        assert(bytes@.take(n as int) == bytes@);
        if last_non_empty(segments(bytes@)).len() == 0 {
            lemma_first_follows_last(segments(bytes@));
            assert(first_non_empty(segments(bytes@)) == last_non_empty(segments(bytes@)));
        }
    }
    if start < n {
        copy_range(bytes, start, n)
    } else {
        copy_range(bytes, best_from, best_to)
    }
}

} // verus!
