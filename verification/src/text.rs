//! Building and splitting text.

use vstd::prelude::*;

verus! {

/// Appends `c` to `s`. Calls `String::push`, which adds one character at the
/// end and leaves the rest of the string as it was.
#[verifier::external_body]
pub(crate) fn push_char(s: &mut String, c: char)
    ensures
        final(s)@ == old(s)@.push(c),
{
    s.push(c);
}

/// The views of a list of strings.
pub open spec fn views(v: Seq<String>) -> Seq<Seq<char>> {
    v.map_values(|p: String| p@)
}

/// The pieces of `s` between occurrences of `sep`, in order, as
/// `str::split` yields them: `k` separators give `k + 1` pieces, some of
/// which may be empty.
pub open spec fn split_pieces(s: Seq<char>, sep: char) -> Seq<Seq<char>>
    decreases s.len(),
{
    if s.len() == 0 {
        seq![Seq::<char>::empty()]
    } else {
        let p = split_pieces(s.drop_last(), sep);
        if s.last() == sep {
            p.push(Seq::<char>::empty())
        } else {
            p.update(p.len() - 1, p.last().push(s.last()))
        }
    }
}

/// The pieces put back together with `sep` between each two of them.
pub open spec fn join_pieces(pieces: Seq<Seq<char>>, sep: char) -> Seq<char>
    decreases pieces.len(),
{
    if pieces.len() == 0 {
        Seq::<char>::empty()
    } else if pieces.len() == 1 {
        pieces[0]
    } else {
        join_pieces(pieces.drop_last(), sep).push(sep) + pieces.last()
    }
}

proof fn lemma_split_pieces_nonempty(s: Seq<char>, sep: char)
    ensures
        split_pieces(s, sep).len() >= 1,
    decreases s.len(),
{
    if s.len() > 0 {
        lemma_split_pieces_nonempty(s.drop_last(), sep);
    }
}

/// Splitting and joining again with the same separator gives back the text,
/// and no piece holds the separator.
pub proof fn lemma_split_join(s: Seq<char>, sep: char)
    ensures
        join_pieces(split_pieces(s, sep), sep) == s,
        forall|i: int| 0 <= i < split_pieces(s, sep).len()
            ==> !(#[trigger] split_pieces(s, sep)[i]).contains(sep),
    decreases s.len(),
{
    lemma_split_pieces_nonempty(s, sep);
    if s.len() == 0 {
        assert(split_pieces(s, sep)[0] =~= Seq::<char>::empty());
    } else {
        let t = s.drop_last();
        let p = split_pieces(t, sep);
        lemma_split_join(t, sep);
        lemma_split_pieces_nonempty(t, sep);
        let q = split_pieces(s, sep);
        if s.last() == sep {
            assert(q.drop_last() =~= p);
            assert(join_pieces(q, sep) =~= join_pieces(p, sep).push(sep) + Seq::<char>::empty());
            assert(t.push(sep) =~= s);
            assert forall|i: int| 0 <= i < q.len() implies !(#[trigger] q[i]).contains(sep) by {
                if i < p.len() {
                    assert(q[i] == p[i]);
                } else {
                    assert(q[i] =~= Seq::<char>::empty());
                }
            }
        } else {
            let last = p.last().push(s.last());
            assert forall|i: int| 0 <= i < q.len() implies !(#[trigger] q[i]).contains(sep) by {
                if i < p.len() - 1 {
                    assert(q[i] == p[i]);
                } else {
                    assert(q[i] == last);
                    assert(!p[p.len() - 1].contains(sep));
                    if last.contains(sep) {
                        let k = choose|k: int| 0 <= k < last.len() && last[k] == sep;
                        if k < last.len() - 1 {
                            assert(p[p.len() - 1][k] == sep);
                        }
                    }
                }
            }
            if p.len() == 1 {
                assert(join_pieces(p, sep) == p[0]);
                assert(q.len() == 1);
                assert(join_pieces(q, sep) == q[0]);
                assert(q[0] =~= t.push(s.last()));
                assert(t.push(s.last()) =~= s);
            } else {
                assert(q.drop_last() =~= p.drop_last());
                assert(join_pieces(q, sep) == join_pieces(p.drop_last(), sep).push(sep) + last);
                assert(join_pieces(p, sep) == join_pieces(p.drop_last(), sep).push(sep) + p.last());
                assert(join_pieces(q, sep) =~= join_pieces(p, sep).push(s.last()));
                assert(t.push(s.last()) =~= s);
            }
        }
    }
}

/// Splits `s` at every `sep` into owned pieces, as
/// `s.split(sep).map(|p| p.to_string()).collect()` does.
pub fn split_text(s: &str, sep: char) -> (res: Vec<String>)
    ensures
        views(res@) == split_pieces(s@, sep),
{
    let ghost text = s@;
    let mut pieces: Vec<String> = Vec::new();
    let mut cur = String::new();
    for c in it: s.chars()
        invariant
            it.seq() == text,
            text == s@,
            views(pieces@).push(cur@) == split_pieces(text.take(it.index()), sep),
    {
        let ghost idx = it.index();
        let ghost before = views(pieces@).push(cur@);
        proof {
            assert(text.take(idx + 1).drop_last() =~= text.take(idx));
            assert(c == text[idx]);
            assert(text.take(idx + 1).last() == c);
        }
        if c == sep {
            let done = cur;
            pieces.push(done);
            cur = String::new();
            proof {
                assert(views(pieces@).push(cur@) =~= before.push(Seq::<char>::empty()));
            }
        } else {
            push_char(&mut cur, c);
            proof {
                assert(views(pieces@).push(cur@) =~= before.update(before.len() - 1, before.last().push(c)));
            }
        }
    }
    pieces.push(cur);
    proof {
        assert(text.take(text.len() as int) =~= text);
    }
    pieces
}

} // verus!
