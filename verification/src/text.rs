//! Plain-text helpers shared by the identity and selector modules: splitting
//! and joining on a separator character, and decimal rendering of counters.

use vstd::prelude::*;
use vstd::string::*;

verus! {

/// The fields of `s` split on `sep`, empty fields kept. Splitting never
/// yields an empty sequence: the empty text has the single empty field.
pub open spec fn spec_split(s: Seq<char>, sep: char) -> Seq<Seq<char>>
    decreases s.len(),
{
    if s.len() == 0 {
        seq![Seq::<char>::empty()]
    } else if s.last() == sep {
        spec_split(s.drop_last(), sep).push(Seq::<char>::empty())
    } else {
        let rest = spec_split(s.drop_last(), sep);
        rest.update(rest.len() - 1, rest.last().push(s.last()))
    }
}

/// The fields joined with `sep` between them.
pub open spec fn spec_join(parts: Seq<Seq<char>>, sep: char) -> Seq<char>
    decreases parts.len(),
{
    if parts.len() == 0 {
        Seq::empty()
    } else if parts.len() == 1 {
        parts[0]
    } else {
        parts[0] + seq![sep] + spec_join(parts.subrange(1, parts.len() as int), sep)
    }
}

pub proof fn lemma_split_len(s: Seq<char>, sep: char)
    ensures
        spec_split(s, sep).len() >= 1,
    decreases s.len(),
{
    if s.len() != 0 {
        lemma_split_len(s.drop_last(), sep);
    }
}

/// No field of a split contains the separator.
pub proof fn lemma_split_free_of_sep(s: Seq<char>, sep: char)
    ensures
        forall|i: int, j: int|
            0 <= i < spec_split(s, sep).len() && 0 <= j < spec_split(s, sep)[i].len()
                ==> spec_split(s, sep)[i][j] != sep,
    decreases s.len(),
{
    if s.len() != 0 {
        lemma_split_free_of_sep(s.drop_last(), sep);
        lemma_split_len(s.drop_last(), sep);
    }
}

/// Splitting one more character extends the last field, or opens a new one.
pub proof fn lemma_split_push(s: Seq<char>, sep: char, c: char)
    ensures
        c == sep ==> spec_split(s.push(c), sep) == spec_split(s, sep).push(Seq::<char>::empty()),
        c != sep ==> spec_split(s.push(c), sep) == spec_split(s, sep).update(
            spec_split(s, sep).len() - 1,
            spec_split(s, sep).last().push(c),
        ),
{
    assert(s.push(c).drop_last() =~= s);
    assert(s.push(c).last() == c);
}

/// Text without the separator splits to itself as the single field.
pub proof fn lemma_split_no_sep(s: Seq<char>, sep: char)
    requires
        forall|j: int| 0 <= j < s.len() ==> s[j] != sep,
    ensures
        spec_split(s, sep) =~~= seq![s],
    decreases s.len(),
{
    if s.len() != 0 {
        lemma_split_no_sep(s.drop_last(), sep);
        lemma_split_len(s.drop_last(), sep);
        assert(s.drop_last().push(s.last()) =~= s);
    }
}

/// Joining the fields of a split around a single separator restores the
/// text: splitting `a + sep + b` yields the field `a` before the fields of
/// `b`, as long as `a` itself is free of the separator.
pub proof fn lemma_join_of_split_pair(a: Seq<char>, b: Seq<char>, sep: char)
    requires
        forall|j: int| 0 <= j < a.len() ==> a[j] != sep,
    ensures
        spec_split(a + seq![sep] + b, sep) =~~= seq![a] + spec_split(b, sep),
    decreases b.len(),
{
    lemma_split_len(b, sep);
    if b.len() == 0 {
        assert(a + seq![sep] + b =~= a.push(sep));
        lemma_split_push(a, sep, sep);
        lemma_split_no_sep(a, sep);
        assert(spec_split(b, sep) =~= seq![Seq::<char>::empty()]);
    } else {
        lemma_join_of_split_pair(a, b.drop_last(), sep);
        lemma_split_len(b.drop_last(), sep);
        assert((a + seq![sep] + b).drop_last() =~= a + seq![sep] + b.drop_last());
        assert((a + seq![sep] + b).last() == b.last());
        assert(b.drop_last().push(b.last()) =~= b);
        lemma_split_push(a + seq![sep] + b.drop_last(), sep, b.last());
        lemma_split_push(b.drop_last(), sep, b.last());
    }
}

/// Joining the fields of a split restores the text exactly.
pub proof fn lemma_join_split(s: Seq<char>, sep: char)
    ensures
        spec_join(spec_split(s, sep), sep) =~= s,
    decreases s.len(),
{
    lemma_split_len(s, sep);
    if s.len() == 0 {
    } else {
        let d = s.drop_last();
        let c = s.last();
        lemma_join_split(d, sep);
        lemma_split_len(d, sep);
        let parts = spec_split(d, sep);
        lemma_split_push(d, sep, c);
        assert(d.push(c) =~= s);
        if c == sep {
            lemma_join_snoc(parts.push(Seq::<char>::empty()), sep);
            assert(parts.push(Seq::<char>::empty()).drop_last() =~= parts);
        } else {
            let updated = parts.update(parts.len() - 1, parts.last().push(c));
            lemma_join_snoc(updated, sep);
            lemma_join_snoc(parts, sep);
            if parts.len() == 1 {
                assert(spec_join(updated, sep) == updated[0]);
            } else {
                assert(updated.drop_last() =~= parts.drop_last());
                assert(updated.last() == parts.last().push(c));
                assert(spec_join(parts.drop_last(), sep) + seq![sep] + parts.last().push(c) =~= (
                spec_join(parts.drop_last(), sep) + seq![sep] + parts.last()).push(c));
            }
        }
    }
}

/// Joining two runs of fields joins each and puts one separator between.
pub proof fn lemma_join_concat(a: Seq<Seq<char>>, b: Seq<Seq<char>>, sep: char)
    requires
        a.len() >= 1,
        b.len() >= 1,
    ensures
        spec_join(a + b, sep) =~= spec_join(a, sep) + seq![sep] + spec_join(b, sep),
    decreases b.len(),
{
    if b.len() == 1 {
        assert(a + b =~= a.push(b[0]));
        lemma_join_snoc(a.push(b[0]), sep);
        assert(a.push(b[0]).drop_last() =~= a);
    } else {
        let bd = b.drop_last();
        lemma_join_concat(a, bd, sep);
        lemma_join_snoc(b, sep);
        lemma_join_snoc(a + b, sep);
        assert((a + b).drop_last() =~= a + bd);
        assert((a + b).last() == b.last());
    }
}

/// A vector's deep view is its elements' deep views, index by index.
pub proof fn lemma_vec_dv<T: DeepView>(v: Vec<T>)
    ensures
        v.deep_view().len() == v@.len(),
        forall|i: int|
            #![trigger v.deep_view()[i]]
            #![trigger v@[i].deep_view()]
            0 <= i < v@.len() ==> v.deep_view()[i] == v@[i].deep_view(),
{
}

/// Whether `s` contains the character `c`.
pub fn contains_char(s: &str, c: char) -> (found: bool)
    ensures
        found == s@.contains(c),
{
    let n = s.unicode_len();
    let mut i: usize = 0;
    while i < n
        invariant
            n == s@.len(),
            0 <= i <= n,
            forall|j: int| 0 <= j < i ==> s@[j] != c,
        decreases n - i,
    {
        if s.get_char(i) == c {
            assert(s@.contains(c));
            return true;
        }
        i = i + 1;
    }
    assert(forall|j: int| 0 <= j < s@.len() ==> s@[j] != c);
    false
}

/// Split `s` into its fields on `sep`, empty fields kept.
pub fn split_on(s: &str, sep: char) -> (fields: Vec<String>)
    ensures
        fields.deep_view() == spec_split(s@, sep),
{
    let n = s.unicode_len();
    let mut fields: Vec<String> = Vec::new();
    let mut start: usize = 0;
    let mut i: usize = 0;
    proof {
        assert(s@.subrange(0, 0) =~= Seq::<char>::empty());
    }
    while i < n
        invariant
            n == s@.len(),
            0 <= start <= i <= n,
            spec_split(s@.subrange(0, i as int), sep) =~~= fields.deep_view().push(
                s@.subrange(start as int, i as int),
            ),
        decreases n - i,
    {
        let c = s.get_char(i);
        proof {
            assert(s@.subrange(0, i + 1) =~= s@.subrange(0, i as int).push(s@[i as int]));
            lemma_split_push(s@.subrange(0, i as int), sep, c);
        }
        if c == sep {
            let field = s.substring_char(start, i);
            let ghost old_fields = fields.deep_view();
            fields.push(field.to_owned());
            proof {
                assert(fields.deep_view() =~= old_fields.push(field@));
            }
            start = i + 1;
            proof {
                assert(s@.subrange(start as int, start as int) =~= Seq::<char>::empty());
            }
        } else {
            proof {
                assert(s@.subrange(start as int, i + 1) =~= s@.subrange(
                    start as int,
                    i as int,
                ).push(s@[i as int]));
                let pre = spec_split(s@.subrange(0, i as int), sep);
                lemma_split_len(s@.subrange(0, i as int), sep);
                assert(pre.last() == s@.subrange(start as int, i as int));
            }
        }
        i = i + 1;
    }
    let field = s.substring_char(start, n);
    let ghost old_fields = fields.deep_view();
    fields.push(field.to_owned());
    proof {
        assert(s@.subrange(0, n as int) =~= s@);
        assert(fields.deep_view() =~= old_fields.push(field@));
    }
    fields
}

/// Join `parts` with `sep` between them.
pub fn join_with(parts: &Vec<String>, sep: char, sep_text: &str) -> (joined: String)
    requires
        sep_text@ == seq![sep],
    ensures
        joined@ == spec_join(parts.deep_view(), sep),
{
    let mut joined = String::new();
    let n = parts.len();
    let mut i: usize = 0;
    while i < n
        invariant
            n == parts.len(),
            0 <= i <= n,
            sep_text@ == seq![sep],
            i == 0 ==> joined@ =~= Seq::<char>::empty(),
            0 < i < n ==> joined@ =~= spec_join(parts.deep_view().subrange(0, i as int), sep)
                + seq![sep],
            i == n && n > 0 ==> joined@ =~= spec_join(parts.deep_view(), sep),
        decreases n - i,
    {
        let ghost pre = parts.deep_view().subrange(0, i as int);
        let ghost cur = parts.deep_view().subrange(0, i + 1);
        proof {
            lemma_join_snoc(cur, sep);
            assert(cur.drop_last() =~= pre);
            assert(cur.last() == parts.deep_view()[i as int]);
        }
        joined.append(parts[i].as_str());
        proof {
            if i == 0 {
                assert(joined@ =~= spec_join(cur, sep));
            } else {
                assert(joined@ =~= spec_join(pre, sep) + seq![sep] + cur.last());
                assert(joined@ =~= spec_join(cur, sep));
            }
        }
        if i + 1 < n {
            joined.append(sep_text);
        } else {
            proof {
                assert(cur =~= parts.deep_view());
            }
        }
        i = i + 1;
    }
    joined
}

/// Appending one more field to a join appends a separator and the field.
pub proof fn lemma_join_snoc(parts: Seq<Seq<char>>, sep: char)
    requires
        parts.len() >= 1,
    ensures
        parts.len() == 1 ==> spec_join(parts, sep) == parts[0],
        parts.len() > 1 ==> spec_join(parts, sep) =~~= spec_join(parts.drop_last(), sep) + seq![
            sep,
        ] + parts.last(),
    decreases parts.len(),
{
    if parts.len() > 1 {
        lemma_join_snoc(parts.subrange(1, parts.len() as int), sep);
        assert(parts.subrange(1, parts.len() as int).drop_last() =~= parts.drop_last().subrange(
            1,
            parts.drop_last().len() as int,
        ));
        assert(parts.subrange(1, parts.len() as int).last() == parts.last());
    }
}

} // verus!
