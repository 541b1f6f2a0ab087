//! Splitting and joining of character sequences at a separator.
//!
//! File names are read as dot-separated components and paths as
//! slash-separated ones; both go through the functions of this module.

use vstd::prelude::*;
use vstd::string::*;

verus! {

/// The pieces of `s` between occurrences of `sep`, in order.
///
/// A sequence with `n` separators has `n + 1` pieces; pieces may be empty.
pub open spec fn split(s: Seq<char>, sep: char) -> Seq<Seq<char>>
    decreases s.len(),
{
    if s.len() == 0 {
        seq![Seq::<char>::empty()]
    } else {
        let init = split(s.drop_last(), sep);
        if s.last() == sep {
            init.push(Seq::<char>::empty())
        } else {
            init.drop_last().push(init.last().push(s.last()))
        }
    }
}

/// The pieces of `parts` written one after another with `sep` between
/// neighbours.
pub open spec fn join(parts: Seq<Seq<char>>, sep: char) -> Seq<char>
    decreases parts.len(),
{
    if parts.len() == 0 {
        Seq::<char>::empty()
    } else if parts.len() == 1 {
        parts[0]
    } else {
        join(parts.drop_last(), sep).push(sep) + parts.last()
    }
}

/// The character sequences that a sequence of strings stands for.
pub open spec fn views(v: Seq<String>) -> Seq<Seq<char>> {
    Seq::new(v.len(), |i: int| v[i]@)
}

/// The character sequences that a sequence of string slices stands for.
pub open spec fn str_views(v: Seq<&'static str>) -> Seq<Seq<char>> {
    Seq::new(v.len(), |i: int| v[i]@)
}

/// Whether no piece of `parts` holds the separator.
pub open spec fn free_of(parts: Seq<Seq<char>>, sep: char) -> bool {
    forall|i: int, j: int|
        0 <= i < parts.len() && 0 <= j < parts[i].len() ==> #[trigger] parts[i][j] != sep
}

/// Splitting always yields at least one piece.
pub proof fn lemma_split_nonempty(s: Seq<char>, sep: char)
    ensures
        split(s, sep).len() >= 1,
    decreases s.len(),
{
    if s.len() > 0 {
        lemma_split_nonempty(s.drop_last(), sep);
    }
}

/// No piece of a split holds the separator.
pub proof fn lemma_split_free(s: Seq<char>, sep: char)
    ensures
        free_of(split(s, sep), sep),
    decreases s.len(),
{
    if s.len() > 0 {
        lemma_split_free(s.drop_last(), sep);
        lemma_split_nonempty(s.drop_last(), sep);
    }
}

/// Joining the pieces of a split gives the sequence back.
pub proof fn lemma_join_split(s: Seq<char>, sep: char)
    ensures
        join(split(s, sep), sep) == s,
    decreases s.len(),
{
    if s.len() > 0 {
        let init = split(s.drop_last(), sep);
        lemma_join_split(s.drop_last(), sep);
        lemma_split_nonempty(s.drop_last(), sep);
        if s.last() == sep {
            let all = init.push(Seq::<char>::empty());
            assert(all.drop_last() =~= init);
            assert(join(all, sep) =~= s);
        } else {
            let grown = init.last().push(s.last());
            let all = init.drop_last().push(grown);
            assert(all.drop_last() =~= init.drop_last());
            if init.len() == 1 {
                assert(join(init, sep) == init[0]);
                assert(join(all, sep) =~= s);
            } else {
                assert(join(init, sep) == join(init.drop_last(), sep).push(sep) + init.last());
                assert(join(all, sep) =~= (join(init.drop_last(), sep).push(sep) + init.last()).push(
                    s.last(),
                ));
                assert(join(all, sep) =~= s);
            }
        }
    }
}

/// A sequence without the separator is its own single piece.
pub proof fn lemma_split_single(p: Seq<char>, sep: char)
    requires
        forall|j: int| 0 <= j < p.len() ==> p[j] != sep,
    ensures
        split(p, sep) == seq![p],
    decreases p.len(),
{
    if p.len() > 0 {
        lemma_split_single(p.drop_last(), sep);
        let init = split(p.drop_last(), sep);
        assert(init.last() == p.drop_last());
        assert(init.last().push(p.last()) =~= p);
        assert(init.drop_last().push(p) =~= seq![p]);
    } else {
        assert(p =~= Seq::<char>::empty());
    }
}

/// Splitting what follows a separator: a separator-free tail is one more
/// piece.
pub proof fn lemma_split_append(a: Seq<char>, b: Seq<char>, sep: char)
    requires
        forall|j: int| 0 <= j < b.len() ==> b[j] != sep,
    ensures
        split(a.push(sep) + b, sep) == split(a, sep).push(b),
    decreases b.len(),
{
    let x = a.push(sep) + b;
    if b.len() == 0 {
        assert(x =~= a.push(sep));
        assert(x.drop_last() =~= a);
        assert(b =~= Seq::<char>::empty());
    } else {
        lemma_split_append(a, b.drop_last(), sep);
        assert(x.drop_last() =~= a.push(sep) + b.drop_last());
        assert(x.last() == b.last());
        let init = split(x.drop_last(), sep);
        assert(init.drop_last() =~= split(a, sep));
        assert(init.last().push(b.last()) =~= b);
    }
}

/// Splitting a join of separator-free pieces gives the pieces back.
pub proof fn lemma_split_join(parts: Seq<Seq<char>>, sep: char)
    requires
        parts.len() >= 1,
        free_of(parts, sep),
    ensures
        split(join(parts, sep), sep) == parts,
    decreases parts.len(),
{
    if parts.len() == 1 {
        lemma_split_single(parts[0], sep);
        assert(seq![parts[0]] =~= parts);
    } else {
        let init = parts.drop_last();
        lemma_split_join(init, sep);
        lemma_split_append(join(init, sep), parts.last(), sep);
        assert(init.push(parts.last()) =~= parts);
    }
}

/// Whether `c` occurs nowhere in `s`.
pub open spec fn lacks(s: Seq<char>, c: char) -> bool {
    forall|j: int| 0 <= j < s.len() ==> s[j] != c
}

/// A character that a sequence lacks is in none of its pieces.
pub proof fn lemma_split_lacks(s: Seq<char>, sep: char, c: char)
    requires
        lacks(s, c),
    ensures
        free_of(split(s, sep), c),
    decreases s.len(),
{
    if s.len() > 0 {
        assert(lacks(s.drop_last(), c)) by {
            assert forall|j: int| 0 <= j < s.drop_last().len() implies s.drop_last()[j] != c by {
                assert(s.drop_last()[j] == s[j]);
            }
        }
        lemma_split_lacks(s.drop_last(), sep, c);
        lemma_split_nonempty(s.drop_last(), sep);
        assert(s.last() == s[s.len() - 1]);
    }
}

/// A character that all pieces lack, and that is not the separator, is not
/// in their join.
pub proof fn lemma_join_lacks(parts: Seq<Seq<char>>, sep: char, c: char)
    requires
        free_of(parts, c),
        sep != c,
    ensures
        lacks(join(parts, sep), c),
    decreases parts.len(),
{
    if parts.len() == 1 {
        assert forall|j: int| 0 <= j < parts[0].len() implies parts[0][j] != c by {}
    } else if parts.len() > 1 {
        let init = parts.drop_last();
        assert(free_of(init, c)) by {
            assert forall|i: int, j: int|
                0 <= i < init.len() && 0 <= j < init[i].len() implies #[trigger] init[i][j] != c by {
                assert(init[i][j] == parts[i][j]);
            }
        }
        lemma_join_lacks(init, sep, c);
        let last = parts.last();
        assert forall|j: int| 0 <= j < last.len() implies last[j] != c by {
            assert(last[j] == parts[parts.len() - 1][j]);
        }
    }
}

/// A join starts with its first piece; where more pieces follow, the
/// separator comes right after it.
pub proof fn lemma_join_starts(parts: Seq<Seq<char>>, sep: char)
    requires
        parts.len() >= 1,
    ensures
        join(parts, sep).len() >= parts[0].len(),
        join(parts, sep).subrange(0, parts[0].len() as int) == parts[0],
        parts.len() >= 2 ==> join(parts, sep).len() > parts[0].len() && join(
            parts,
            sep,
        )[parts[0].len() as int] == sep,
    decreases parts.len(),
{
    if parts.len() == 1 {
        assert(parts[0].subrange(0, parts[0].len() as int) =~= parts[0]);
    } else {
        let init = parts.drop_last();
        lemma_join_starts(init, sep);
        assert(init[0] == parts[0]);
        let whole = join(init, sep).push(sep) + parts.last();
        assert(whole.subrange(0, parts[0].len() as int) =~= join(init, sep).subrange(
            0,
            parts[0].len() as int,
        ));
        if init.len() == 1 {
            assert(join(init, sep) == parts[0]);
            assert(whole[parts[0].len() as int] == sep);
        } else {
            assert(whole[parts[0].len() as int] == join(init, sep)[parts[0].len() as int]);
        }
    }
}

/// Whether two string slices hold the same characters.
pub fn str_eq(a: &str, b: &str) -> (same: bool)
    ensures
        same == (a@ == b@),
{
    let x = String::from_str(a);
    let y = String::from_str(b);
    x == y
}

/// The position of `token` in `list`, if it is there.
pub fn position(list: &Vec<&'static str>, token: &str) -> (found: Option<usize>)
    ensures
        found is Some <==> str_views(list@).contains(token@),
        found is Some ==> found.unwrap() < list.len() && list@[found.unwrap() as int]@ == token@,
{
    let mut i: usize = 0;
    while i < list.len()
        invariant
            i <= list.len(),
            forall|k: int| 0 <= k < i ==> str_views(list@)[k] != token@,
        decreases list.len() - i,
    {
        if str_eq(list[i], token) {
            assert(str_views(list@)[i as int] == token@);
            return Some(i);
        }
        i = i + 1;
    }
    None
}

/// Splits `s` at every `sep`.
pub fn split_str(s: &str, sep: char) -> (parts: Vec<String>)
    ensures
        views(parts@) == split(s@, sep),
{
    let n: usize = s.unicode_len();
    let mut parts: Vec<String> = Vec::new();
    let mut start: usize = 0;
    let mut i: usize = 0;
    assert(s@.take(0) =~= Seq::<char>::empty());
    assert(views(parts@).push(s@.subrange(0, 0)) =~= seq![Seq::<char>::empty()]);
    while i < n
        invariant
            n == s@.len(),
            start <= i <= n,
            split(s@.take(i as int), sep) == views(parts@).push(s@.subrange(start as int, i as int)),
        decreases n - i,
    {
        let c = s.get_char(i);
        let ghost before = views(parts@);
        proof {
            let t = s@.take(i as int + 1);
            assert(t.drop_last() =~= s@.take(i as int));
            assert(t.last() == c);
        }
        if c == sep {
            parts.push(String::from_str(s.substring_char(start, i)));
            proof {
                assert(views(parts@) =~= before.push(s@.subrange(start as int, i as int)));
                assert(s@.subrange(i as int + 1, i as int + 1) =~= Seq::<char>::empty());
            }
            start = i + 1;
        } else {
            proof {
                let init = before.push(s@.subrange(start as int, i as int));
                assert(init.drop_last() =~= before);
                assert(init.last().push(c) =~= s@.subrange(start as int, i as int + 1));
            }
        }
        i = i + 1;
    }
    parts.push(String::from_str(s.substring_char(start, n)));
    proof {
        assert(s@.take(n as int) =~= s@);
        assert(views(parts@) =~= split(s@, sep));
    }
    parts
}

/// Writes the first `count` of `parts` one after another with `sep`
/// between neighbours.
pub fn join_first(parts: &Vec<String>, count: usize, sep: &str) -> (joined: String)
    requires
        sep@.len() == 1,
        count <= parts@.len(),
    ensures
        joined@ == join(views(parts@).take(count as int), sep@[0]),
{
    let mut joined = String::new();
    let mut i: usize = 0;
    assert(views(parts@).take(0) =~= Seq::<Seq<char>>::empty());
    while i < count
        invariant
            sep@.len() == 1,
            i <= count <= parts@.len(),
            joined@ == join(views(parts@).take(i as int), sep@[0]),
        decreases count - i,
    {
        proof {
            let t = views(parts@).take(i as int + 1);
            assert(t.drop_last() =~= views(parts@).take(i as int));
            assert(t.last() == parts@[i as int]@);
            assert(sep@ =~= seq![sep@[0]]);
        }
        if i > 0 {
            joined.append(sep);
        }
        joined.append(parts[i].as_str());
        proof {
            if i > 0 {
                assert(joined@ =~= join(views(parts@).take(i as int), sep@[0]).push(sep@[0])
                    + parts@[i as int]@);
            } else {
                assert(joined@ =~= parts@[0]@);
            }
        }
        i = i + 1;
    }
    joined
}

/// Writes `parts` one after another with `sep` between neighbours.
pub fn join_strs(parts: &Vec<String>, sep: &str) -> (joined: String)
    requires
        sep@.len() == 1,
    ensures
        joined@ == join(views(parts@), sep@[0]),
{
    proof {
        assert(views(parts@).take(parts@.len() as int) =~= views(parts@));
    }
    join_first(parts, parts.len(), sep)
}

} // verus!
