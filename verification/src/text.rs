//! Plain text helpers shared by the other modules: splitting on a separator
//! as `str::split` does, comparing texts, and the text view of a result.

use vstd::prelude::*;

verus! {

/// The pieces of `s` between the occurrences of `sep`, in order, as
/// `str::split(sep)` yields them: one more piece than there are separators,
/// empty pieces included.
pub open spec fn split_on(s: Seq<char>, sep: char) -> Seq<Seq<char>>
    decreases s.len(),
{
    if s.len() == 0 {
        seq![Seq::<char>::empty()]
    } else {
        let p = split_on(s.drop_last(), sep);
        if s.last() == sep {
            p.push(Seq::<char>::empty())
        } else {
            p.update(p.len() - 1, p.last().push(s.last()))
        }
    }
}

/// Whether `s` holds no `sep`.
pub open spec fn lacks(s: Seq<char>, sep: char) -> bool {
    forall|i: int| 0 <= i < s.len() ==> s[i] != sep
}

/// A result whose error text is taken by its view.
pub open spec fn text_result<T>(r: Result<T, String>) -> Result<T, Seq<char>> {
    match r {
        Ok(v) => Ok(v),
        Err(e) => Err(e@),
    }
}

/// Splitting never yields an empty list of pieces.
pub proof fn lemma_split_nonempty(s: Seq<char>, sep: char)
    ensures
        split_on(s, sep).len() >= 1,
    decreases s.len(),
{
    if s.len() > 0 {
        lemma_split_nonempty(s.drop_last(), sep);
    }
}

/// Text free of the separator splits into itself alone, and appended after
/// a separator it becomes one more piece.
pub proof fn lemma_split_append(a: Seq<char>, b: Seq<char>, sep: char)
    requires
        lacks(b, sep),
    ensures
        split_on(b, sep) == seq![b],
        split_on(a.push(sep) + b, sep) == split_on(a, sep).push(b),
    decreases b.len(),
{
    if b.len() == 0 {
        assert(b =~= Seq::<char>::empty());
        assert(a.push(sep) + b =~= a.push(sep));
        assert((a.push(sep)).drop_last() =~= a);
        assert(split_on(b, sep) =~= seq![b]);
    } else {
        let b1 = b.drop_last();
        lemma_split_append(a, b1, sep);
        let x = a.push(sep) + b;
        assert(x.drop_last() =~= a.push(sep) + b1);
        assert(x.last() == b.last());
        assert(b.drop_last() =~= b1);
        assert(b1.push(b.last()) =~= b);
        lemma_split_nonempty(b1, sep);
        assert(split_on(b, sep) =~= seq![b]);
        assert(split_on(x, sep) =~= split_on(a, sep).push(b));
    }
}

/// Whether two texts are the same.
pub fn same_text(a: &str, b: &str) -> (r: bool)
    ensures
        r == (a@ == b@),
{
    let x = a.to_owned();
    let y = b.to_owned();
    x == y
}

/// The text of an optional string, borrowed (`Option::as_deref`).
pub fn opt_str(o: &Option<String>) -> (r: Option<&str>)
    ensures
        r.deep_view() == o.deep_view(),
{
    match o {
        Some(s) => Some(s.as_str()),
        None => None,
    }
}

/// Splits `s` on `sep` as `str::split(sep)` does.
pub fn split_text<'a>(s: &'a str, sep: char) -> (r: Vec<&'a str>)
    ensures
        r@.map_values(|p: &str| p@) == split_on(s@, sep),
{
    let len = s.unicode_len();
    let mut pieces: Vec<&'a str> = Vec::new();
    let mut start: usize = 0;
    let mut i: usize = 0;
    assert(s@.take(0) =~= Seq::<char>::empty());
    assert(s@.subrange(0, 0) =~= Seq::<char>::empty());
    assert(pieces@.map_values(|p: &str| p@) =~= Seq::<Seq<char>>::empty());
    while i < len
        invariant
            len == s@.len(),
            start <= i <= len,
            split_on(s@.take(i as int), sep) =~= pieces@.map_values(|p: &str| p@).push(
                s@.subrange(start as int, i as int),
            ),
        decreases len - i,
    {
        let c = s.get_char(i);
        let ghost prev = s@.take(i as int);
        assert(s@.take(i + 1).drop_last() =~= prev);
        assert(s@.take(i + 1).last() == c);
        proof {
            lemma_split_nonempty(prev, sep);
        }
        if c == sep {
            let piece = s.substring_char(start, i);
            pieces.push(piece);
            start = i + 1;
            assert(s@.subrange(start as int, i + 1) =~= Seq::<char>::empty());
        } else {
            assert(s@.subrange(start as int, i + 1) =~= s@.subrange(start as int, i as int).push(c));
        }
        i = i + 1;
    }
    let last = s.substring_char(start, len);
    pieces.push(last);
    assert(s@.take(len as int) =~= s@);
    pieces
}

/// The pieces joined back with `sep` between them.
pub open spec fn join_on(pieces: Seq<Seq<char>>, sep: char) -> Seq<char>
    decreases pieces.len(),
{
    if pieces.len() == 0 {
        Seq::<char>::empty()
    } else if pieces.len() == 1 {
        pieces[0]
    } else {
        join_on(pieces.drop_last(), sep).push(sep) + pieces.last()
    }
}

/// Splitting loses nothing and keeps no separator: the pieces joined with
/// the separator give the text back, and no piece holds the separator.
pub proof fn lemma_split_join(s: Seq<char>, sep: char)
    ensures
        join_on(split_on(s, sep), sep) == s,
        forall|i: int| 0 <= i < split_on(s, sep).len() ==> lacks(#[trigger] split_on(s, sep)[i], sep),
    decreases s.len(),
{
    if s.len() == 0 {
        assert(split_on(s, sep) =~= seq![Seq::<char>::empty()]);
        assert(s =~= Seq::<char>::empty());
    } else {
        let s1 = s.drop_last();
        let c = s.last();
        lemma_split_join(s1, sep);
        lemma_split_nonempty(s1, sep);
        let p = split_on(s1, sep);
        let q = split_on(s, sep);
        assert(s1.push(c) =~= s);
        if c == sep {
            assert(q == p.push(Seq::<char>::empty()));
            assert(q.drop_last() =~= p);
            assert(join_on(q, sep) =~= s1.push(sep) + Seq::<char>::empty());
            assert forall|i: int| 0 <= i < q.len() implies lacks(#[trigger] q[i], sep) by {
                if i < p.len() {
                    assert(q[i] == p[i]);
                }
            }
        } else {
            let last = p.last().push(c);
            assert(q == p.update(p.len() - 1, last));
            if p.len() == 1 {
                assert(join_on(q, sep) == q[0]);
                assert(join_on(p, sep) == p[0]);
            } else {
                assert(q.drop_last() =~= p.drop_last());
                assert(join_on(p, sep) == join_on(p.drop_last(), sep).push(sep) + p.last());
                assert(join_on(q, sep) == join_on(q.drop_last(), sep).push(sep) + q.last());
                assert(join_on(q, sep) =~= (join_on(p.drop_last(), sep).push(sep) + p.last()).push(c));
            }
            assert forall|i: int| 0 <= i < q.len() implies lacks(#[trigger] q[i], sep) by {
                if i < p.len() - 1 {
                    assert(q[i] == p[i]);
                } else {
                    assert(q[i] == last);
                    assert(lacks(p[p.len() - 1], sep));
                    assert forall|j: int| 0 <= j < last.len() implies last[j] != sep by {
                        if j < last.len() - 1 {
                            assert(last[j] == p[p.len() - 1][j]);
                        }
                    }
                }
            }
        }
    }
}

} // verus!
