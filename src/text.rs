use vstd::prelude::*;

verus! {

/// The pieces of `s` between single ASCII spaces, as `str::split(' ')` yields
/// them: `n` spaces give `n + 1` pieces, some of which may be empty.
pub open spec fn split_spaces(s: Seq<char>) -> Seq<Seq<char>>
    decreases s.len(),
{
    if s.len() == 0 {
        seq![seq![]]
    } else {
        let rest = split_spaces(s.drop_last());
        if s.last() == ' ' {
            rest.push(seq![])
        } else {
            rest.update(rest.len() - 1, rest.last().push(s.last()))
        }
    }
}

/// The pieces joined with `sep` between each two.
pub open spec fn join_sep(pieces: Seq<Seq<char>>, sep: Seq<char>) -> Seq<char>
    decreases pieces.len(),
{
    if pieces.len() == 0 {
        seq![]
    } else if pieces.len() == 1 {
        pieces[0]
    } else {
        join_sep(pieces.drop_last(), sep) + sep + pieces.last()
    }
}

/// The pieces joined with one ASCII space between each two.
pub open spec fn join_spaces(pieces: Seq<Seq<char>>) -> Seq<char> {
    join_sep(pieces, seq![' '])
}

pub open spec fn has_no_space(s: Seq<char>) -> bool {
    forall|i: int| 0 <= i < s.len() ==> s[i] != ' '
}

pub proof fn lemma_split_nonempty(s: Seq<char>)
    ensures
        split_spaces(s).len() >= 1,
    decreases s.len(),
{
    if s.len() > 0 {
        lemma_split_nonempty(s.drop_last());
    }
}

/// Appending text without spaces only lengthens the last piece.
pub proof fn lemma_split_append_word(s: Seq<char>, t: Seq<char>)
    requires
        has_no_space(t),
    ensures
        split_spaces(s + t) == split_spaces(s).update(
            split_spaces(s).len() - 1,
            split_spaces(s).last() + t,
        ),
    decreases t.len(),
{
    lemma_split_nonempty(s);
    if t.len() == 0 {
        assert(s + t =~= s);
        assert(split_spaces(s).last() + t =~= split_spaces(s).last());
        assert(split_spaces(s).update(split_spaces(s).len() - 1, split_spaces(s).last())
            =~= split_spaces(s));
    } else {
        let u = t.drop_last();
        lemma_split_append_word(s, u);
        assert((s + t).drop_last() =~= s + u);
        assert((s + t).last() == t.last());
        lemma_split_nonempty(s + u);
        let rest = split_spaces(s + u);
        let l = split_spaces(s).len();
        assert(t.last() != ' ');
        assert(rest.len() == l);
        assert(rest.last() == split_spaces(s).last() + u);
        assert(split_spaces(s + t) == rest.update(rest.len() - 1, rest.last().push(t.last())));
        assert(split_spaces(s).last() + u + seq![t.last()] =~= split_spaces(s).last() + t);
        assert((split_spaces(s).last() + u).push(t.last()) =~= split_spaces(s).last() + t);
        assert(split_spaces(s + t) =~= split_spaces(s).update(
            split_spaces(s).len() - 1,
            split_spaces(s).last() + t,
        ));
    }
}

/// Splitting undoes joining, as long as no piece holds a space.
pub proof fn lemma_split_join(pieces: Seq<Seq<char>>)
    requires
        pieces.len() >= 1,
        forall|i: int| 0 <= i < pieces.len() ==> has_no_space(#[trigger] pieces[i]),
    ensures
        split_spaces(join_spaces(pieces)) == pieces,
    decreases pieces.len(),
{
    if pieces.len() == 1 {
        lemma_split_append_word(seq![], pieces[0]);
        assert(Seq::<char>::empty() + pieces[0] =~= pieces[0]);
        assert(split_spaces(seq![]) =~= seq![seq![]]);
        assert(split_spaces(join_spaces(pieces)) =~= pieces);
    } else {
        let init = pieces.drop_last();
        assert forall|i: int| 0 <= i < init.len() implies has_no_space(#[trigger] init[i]) by {
            assert(init[i] == pieces[i]);
        }
        lemma_split_join(init);
        let head = join_spaces(init) + seq![' '];
        assert(head.drop_last() =~= join_spaces(init));
        assert(split_spaces(head) == split_spaces(join_spaces(init)).push(seq![]));
        assert(has_no_space(pieces[pieces.len() - 1]));
        lemma_split_append_word(head, pieces.last());
        assert(Seq::<char>::empty() + pieces.last() =~= pieces.last());
        assert(split_spaces(join_spaces(pieces)) =~= pieces);
    }
}

/// No piece of a split holds a space.
pub proof fn lemma_split_pieces(s: Seq<char>)
    ensures
        forall|i: int|
            0 <= i < split_spaces(s).len() ==> has_no_space(#[trigger] split_spaces(s)[i]),
    decreases s.len(),
{
    if s.len() > 0 {
        lemma_split_pieces(s.drop_last());
        lemma_split_nonempty(s.drop_last());
        let rest = split_spaces(s.drop_last());
        if s.last() != ' ' {
            assert forall|i: int| 0 <= i < split_spaces(s).len() implies has_no_space(
                #[trigger] split_spaces(s)[i],
            ) by {
                if i == rest.len() - 1 {
                    assert(has_no_space(rest[i]));
                    assert(split_spaces(s)[i] == rest[i].push(s.last()));
                }
            }
        } else {
            assert forall|i: int| 0 <= i < split_spaces(s).len() implies has_no_space(
                #[trigger] split_spaces(s)[i],
            ) by {
                if i < rest.len() {
                    assert(split_spaces(s)[i] == rest[i]);
                }
            }
        }
    }
}

/// Equality of two strings by their characters.
pub fn str_eq(a: &str, b: &str) -> (r: bool)
    ensures
        r == (a@ == b@),
{
    let n = a.unicode_len();
    if n != b.unicode_len() {
        return false;
    }
    let mut i: usize = 0;
    while i < n
        invariant
            n == a@.len(),
            n == b@.len(),
            0 <= i <= n,
            forall|j: int| 0 <= j < i ==> a@[j] == b@[j],
        decreases n - i,
    {
        if a.get_char(i) != b.get_char(i) {
            return false;
        }
        i = i + 1;
    }
    assert(a@ =~= b@);
    true
}

/// Splits `s` at every ASCII space, as `str::split(' ')` does.
pub fn split_on_spaces(s: &str) -> (r: Vec<String>)
    ensures
        r@.len() == split_spaces(s@).len(),
        forall|i: int| 0 <= i < r@.len() ==> #[trigger] r@[i]@ == split_spaces(s@)[i],
{
    let n = s.unicode_len();
    let mut out: Vec<String> = Vec::new();
    let mut start: usize = 0;
    let mut i: usize = 0;
    while i < n
        invariant
            n == s@.len(),
            0 <= start <= i <= n,
            split_spaces(s@.take(i as int)).len() == out@.len() + 1,
            forall|k: int|
                0 <= k < out@.len() ==> #[trigger] out@[k]@ == split_spaces(s@.take(i as int))[k],
            split_spaces(s@.take(i as int)).last() == s@.subrange(start as int, i as int),
        decreases n - i,
    {
        let c = s.get_char(i);
        assert(s@.take(i + 1).drop_last() =~= s@.take(i as int));
        assert(s@.take(i + 1).last() == c);
        if c == ' ' {
            let piece = s.substring_char(start, i).to_string();
            out.push(piece);
            start = i + 1;
        } else {
            assert(s@.subrange(start as int, i as int).push(c) =~= s@.subrange(start as int, i + 1));
        }
        i = i + 1;
    }
    let last = s.substring_char(start, n).to_string();
    out.push(last);
    assert(s@.take(n as int) =~= s@);
    out
}

/// The pieces joined with `sep` between each two.
pub fn join_with(pieces: &Vec<String>, sep: &str) -> (r: String)
    ensures
        r@ == join_sep(pieces@.map_values(|p: String| p@), sep@),
{
    let ghost views = pieces@.map_values(|p: String| p@);
    let mut r = String::new();
    let mut i: usize = 0;
    while i < pieces.len()
        invariant
            0 <= i <= pieces@.len(),
            views == pieces@.map_values(|p: String| p@),
            r@ == join_sep(views.take(i as int), sep@),
        decreases pieces.len() - i,
    {
        assert(views.take(i + 1).drop_last() =~= views.take(i as int));
        if i == 0 {
            assert(join_sep(views.take(0), sep@) == Seq::<char>::empty());
            r.append(pieces[i].as_str());
            assert(r@ =~= views.take(1)[0]);
        } else {
            r.append(sep);
            r.append(pieces[i].as_str());
            assert(r@ =~= join_sep(views.take(i as int), sep@) + sep@ + views[i as int]);
        }
        i = i + 1;
    }
    assert(views.take(pieces.len() as int) =~= views);
    r
}

/// The pieces joined with one ASCII space between each two.
pub fn join_with_spaces(pieces: &Vec<String>) -> (r: String)
    ensures
        r@ == join_spaces(pieces@.map_values(|p: String| p@)),
{
    proof {
        reveal_strlit(" ");
        assert(" "@ =~= seq![' ']);
    }
    join_with(pieces, " ")
}

} // verus!
