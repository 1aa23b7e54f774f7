//! Byte-level substring replacement: the one algorithm of the shell.
//!
//! The bundled markup holds a placeholder line; composing the page means
//! replacing that placeholder by the script text. `replaced` says what the
//! result is, `replace_bytes` computes it, and the two lemmas pin down the
//! cases the page composition relies on: a single occurrence is replaced
//! exactly, and text without the placeholder passes through unchanged.

use vstd::prelude::*;

verus! {

/// `needle` occurs in `hay` starting at index `i`.
pub open spec fn occurs_at(hay: Seq<u8>, needle: Seq<u8>, i: int) -> bool {
    &&& 0 <= i
    &&& i + needle.len() <= hay.len()
    &&& hay.subrange(i, i + needle.len() as int) == needle
}

/// `needle` occurs somewhere in `hay`.
pub open spec fn occurs(hay: Seq<u8>, needle: Seq<u8>) -> bool {
    exists|i: int| occurs_at(hay, needle, i)
}

/// The result of replacing every occurrence of `needle` in `hay` by `repl`,
/// scanning left to right and never re-examining replaced text.
/// An empty `needle` leaves `hay` unchanged.
pub open spec fn replaced(hay: Seq<u8>, needle: Seq<u8>, repl: Seq<u8>) -> Seq<u8>
    decreases hay.len(),
{
    if needle.len() == 0 || hay.len() == 0 {
        hay
    } else if needle.len() <= hay.len() && hay.subrange(0, needle.len() as int) == needle {
        repl + replaced(hay.subrange(needle.len() as int, hay.len() as int), needle, repl)
    } else {
        seq![hay[0]] + replaced(hay.subrange(1, hay.len() as int), needle, repl)
    }
}

/// Whether `hay[i .. i + needle.len()]` equals `needle`.
fn matches_at(hay: &Vec<u8>, needle: &Vec<u8>, i: usize) -> (b: bool)
    requires
        i + needle@.len() <= hay@.len(),
    ensures
        b == occurs_at(hay@, needle@, i as int),
{
    let hay_len = hay.len();
    let mut j: usize = 0;
    while j < needle.len()
        invariant
            i + needle@.len() <= hay@.len(),
            hay_len == hay@.len(),
            j <= needle@.len(),
            forall|k: int| 0 <= k < j ==> hay@[i + k] == needle@[k],
        decreases needle@.len() - j,
    {
        if hay[i + j] != needle[j] {
            assert(hay@.subrange(i as int, i + needle@.len() as int)[j as int] != needle@[j as int]);
            return false;
        }
        j += 1;
    }
    assert(hay@.subrange(i as int, i + needle@.len() as int) =~= needle@);
    true
}

/// Appends all of `src` to `dst`.
pub fn push_all(dst: &mut Vec<u8>, src: &Vec<u8>)
    ensures
        final(dst)@ == old(dst)@ + src@,
{
    let mut j: usize = 0;
    while j < src.len()
        invariant
            j <= src@.len(),
            dst@ == old(dst)@ + src@.subrange(0, j as int),
        decreases src@.len() - j,
    {
        dst.push(src[j]);
        assert(dst@ =~= old(dst)@ + src@.subrange(0, j + 1));
        j += 1;
    }
    assert(dst@ =~= old(dst)@ + src@);
}

/// Replaces every occurrence of `needle` in `hay` by `repl`, scanning left
/// to right, exactly as `replaced` describes.
pub fn replace_bytes(hay: &Vec<u8>, needle: &Vec<u8>, repl: &Vec<u8>) -> (out: Vec<u8>)
    ensures
        out@ == replaced(hay@, needle@, repl@),
{
    let mut out: Vec<u8> = Vec::new();
    if needle.len() == 0 {
        push_all(&mut out, hay);
        return out;
    }
    let mut i: usize = 0;
    assert(hay@.subrange(0, hay@.len() as int) =~= hay@);
    while i < hay.len()
        invariant
            needle@.len() > 0,
            i <= hay@.len(),
            replaced(hay@, needle@, repl@) == out@ + replaced(
                hay@.subrange(i as int, hay@.len() as int),
                needle@,
                repl@,
            ),
        decreases hay@.len() - i,
    {
        let ghost pre = out@;
        let ghost suffix = hay@.subrange(i as int, hay@.len() as int);
        let rest = hay.len() - i;
        if needle.len() <= rest && matches_at(hay, needle, i) {
            push_all(&mut out, repl);
            proof {
                assert(suffix.subrange(0, needle@.len() as int) =~= hay@.subrange(
                    i as int,
                    i + needle@.len() as int,
                ));
                assert(suffix.subrange(needle@.len() as int, suffix.len() as int) =~= hay@.subrange(
                    i + needle@.len() as int,
                    hay@.len() as int,
                ));
                assert(out@ + replaced(
                    hay@.subrange(i + needle@.len() as int, hay@.len() as int),
                    needle@,
                    repl@,
                ) =~= pre + replaced(suffix, needle@, repl@));
            }
            i += needle.len();
        } else {
            out.push(hay[i]);
            proof {
                if suffix.len() >= needle@.len() {
                    assert(suffix.subrange(0, needle@.len() as int) =~= hay@.subrange(
                        i as int,
                        i + needle@.len() as int,
                    ));
                }
                assert(suffix.subrange(1, suffix.len() as int) =~= hay@.subrange(
                    i + 1,
                    hay@.len() as int,
                ));
                assert(replaced(suffix, needle@, repl@) == seq![hay@[i as int]] + replaced(
                    hay@.subrange(i + 1, hay@.len() as int),
                    needle@,
                    repl@,
                ));
                assert(out@ + replaced(hay@.subrange(i + 1, hay@.len() as int), needle@, repl@)
                    =~= pre + replaced(suffix, needle@, repl@));
            }
            i += 1;
        }
    }
    proof {
        assert(hay@.subrange(hay@.len() as int, hay@.len() as int) =~= Seq::<u8>::empty());
        assert(out@ + Seq::<u8>::empty() =~= out@);
    }
    out
}

/// Text without the needle is left byte-identical: replacement is a no-op
/// exactly when the needle is absent.
pub proof fn lemma_replaced_absent(hay: Seq<u8>, needle: Seq<u8>, repl: Seq<u8>)
    requires
        !occurs(hay, needle),
    ensures
        replaced(hay, needle, repl) == hay,
    decreases hay.len(),
{
    if needle.len() == 0 || hay.len() == 0 {
    } else if needle.len() <= hay.len() && hay.subrange(0, needle.len() as int) == needle {
        assert(occurs_at(hay, needle, 0));
        assert(false);
    } else {
        let tail = hay.subrange(1, hay.len() as int);
        assert forall|j: int| !occurs_at(tail, needle, j) by {
            if occurs_at(tail, needle, j) {
                assert(tail.subrange(j, j + needle.len() as int) =~= hay.subrange(
                    j + 1,
                    j + 1 + needle.len() as int,
                ));
                assert(occurs_at(hay, needle, j + 1));
            }
        }
        lemma_replaced_absent(tail, needle, repl);
        assert(seq![hay[0]] + tail =~= hay);
    }
}

/// Text holding the needle exactly once has just that occurrence replaced;
/// the bytes before and after it are kept byte-identical.
pub proof fn lemma_replaced_single(hay: Seq<u8>, needle: Seq<u8>, repl: Seq<u8>, i: int)
    requires
        needle.len() > 0,
        occurs_at(hay, needle, i),
        forall|j: int| occurs_at(hay, needle, j) ==> j == i,
    ensures
        replaced(hay, needle, repl) == hay.subrange(0, i) + repl + hay.subrange(
            i + needle.len() as int,
            hay.len() as int,
        ),
    decreases hay.len(),
{
    if i == 0 {
        let rest = hay.subrange(needle.len() as int, hay.len() as int);
        assert(hay.subrange(0, needle.len() as int) =~= needle);
        assert forall|j: int| !occurs_at(rest, needle, j) by {
            if occurs_at(rest, needle, j) {
                assert(rest.subrange(j, j + needle.len() as int) =~= hay.subrange(
                    needle.len() + j,
                    needle.len() + j + needle.len() as int,
                ));
                assert(occurs_at(hay, needle, needle.len() + j));
            }
        }
        lemma_replaced_absent(rest, needle, repl);
        assert(replaced(hay, needle, repl) =~= hay.subrange(0, 0) + repl + rest);
    } else {
        if needle.len() <= hay.len() && hay.subrange(0, needle.len() as int) == needle {
            assert(occurs_at(hay, needle, 0));
            assert(false);
        }
        let tail = hay.subrange(1, hay.len() as int);
        assert(tail.subrange(i - 1, i - 1 + needle.len() as int) =~= hay.subrange(
            i,
            i + needle.len() as int,
        ));
        assert(occurs_at(tail, needle, i - 1));
        assert forall|j: int| occurs_at(tail, needle, j) implies j == i - 1 by {
            assert(tail.subrange(j, j + needle.len() as int) =~= hay.subrange(
                j + 1,
                j + 1 + needle.len() as int,
            ));
            assert(occurs_at(hay, needle, j + 1));
        }
        lemma_replaced_single(tail, needle, repl, i - 1);
        assert(tail.subrange(0, i - 1) =~= hay.subrange(1, i));
        assert(tail.subrange(i - 1 + needle.len() as int, tail.len() as int) =~= hay.subrange(
            i + needle.len() as int,
            hay.len() as int,
        ));
        assert(seq![hay[0]] + (hay.subrange(1, i) + repl + hay.subrange(
            i + needle.len() as int,
            hay.len() as int,
        )) =~= hay.subrange(0, i) + repl + hay.subrange(i + needle.len() as int, hay.len() as int));
    }
}

} // verus!
