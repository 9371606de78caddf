//! Shader keywords: the placeholder keyword, duplicate removal and the
//! combinations of keyword sets that shader variants are compiled for.

use vstd::prelude::*;
use vstd::string::*;
use itertools::Itertools;

verus! {

/// The keyword that stands for "no keyword" in a keyword set.
pub open spec fn placeholder() -> Seq<char> {
    seq!['_']
}

/// Whether `keyword` is the placeholder keyword `_`.
pub fn is_placeholder(keyword: &String) -> (r: bool)
    ensures
        r == (keyword@ == placeholder()),
{
    let s = keyword.as_str();
    if s.unicode_len() == 1 {
        let c = s.get_char(0);
        if c == '_' {
            assert(keyword@ =~= placeholder());
            true
        } else {
            false
        }
    } else {
        false
    }
}

/// The placeholder keyword as a string.
pub fn placeholder_keyword() -> (r: String)
    ensures
        r@ == placeholder(),
{
    let r = String::from_str("_");
    proof {
        reveal_strlit("_");
    }
    assert(r@ =~= placeholder());
    r
}

/// The elements of `s` in order of first occurrence, without repetitions.
pub open spec fn unique_seq<A>(s: Seq<A>) -> Seq<A>
    decreases s.len(),
{
    if s.len() == 0 {
        seq![]
    } else {
        let u = unique_seq(s.drop_last());
        if u.contains(s.last()) {
            u
        } else {
            u.push(s.last())
        }
    }
}

/// Every choice of one element from each set, the first set varying
/// slowest; the product of no sets is the single empty choice.
pub open spec fn cartesian<A>(sets: Seq<Seq<A>>) -> Seq<Seq<A>>
    decreases sets.len(),
{
    if sets.len() == 0 {
        seq![seq![]]
    } else {
        product_with(sets[0], cartesian(sets.drop_first()))
    }
}

/// Each element of `xs` in turn, followed by each of `rest`.
pub open spec fn product_with<A>(xs: Seq<A>, rest: Seq<Seq<A>>) -> Seq<Seq<A>>
    decreases xs.len(),
{
    if xs.len() == 0 {
        seq![]
    } else {
        rest.map_values(|r: Seq<A>| seq![xs[0]] + r) + product_with(xs.drop_first(), rest)
    }
}

/// The concatenation of the sets, in order.
pub open spec fn flatten_seq<A>(sets: Seq<Seq<A>>) -> Seq<A>
    decreases sets.len(),
{
    if sets.len() == 0 {
        seq![]
    } else {
        flatten_seq(sets.drop_last()) + sets.last()
    }
}

/// The keywords without repetitions, in order of first occurrence
/// (`Itertools::unique`, which compares keywords by their text).
#[verifier::external_body]
pub(crate) fn unique_keywords(keywords: &Vec<String>) -> (r: Vec<String>)
    ensures
        r.deep_view() == unique_seq(keywords.deep_view()),
{
    keywords.iter().cloned().unique().collect()
}

/// Every combination of one keyword from each set, the first set varying
/// slowest (`Itertools::multi_cartesian_product`).
#[verifier::external_body]
pub(crate) fn keyword_combinations(sets: &Vec<Vec<String>>) -> (r: Vec<Vec<String>>)
    ensures
        r.deep_view() == cartesian(sets.deep_view()),
{
    sets.iter().map(|set| set.iter().cloned()).multi_cartesian_product().collect()
}

/// `unique_seq` keeps exactly the elements of its input.
pub proof fn lemma_unique_contains<A>(s: Seq<A>, x: A)
    ensures
        unique_seq(s).contains(x) <==> s.contains(x),
    decreases s.len(),
{
    if s.len() > 0 {
        let p = s.drop_last();
        lemma_unique_contains(p, x);
        lemma_unique_contains(p, s.last());
        if p.contains(x) {
            let k = choose|k: int| 0 <= k < p.len() && p[k] == x;
            assert(s[k] == x);
        }
        if s.contains(x) && x != s.last() {
            let k = choose|k: int| 0 <= k < s.len() && s[k] == x;
            assert(p[k] == x);
        }
        let u = unique_seq(p);
        if !u.contains(s.last()) {
            if u.contains(x) {
                let k = choose|k: int| 0 <= k < u.len() && u[k] == x;
                assert(u.push(s.last())[k] == x);
            }
            assert(u.push(s.last())[u.len() as int] == s.last());
            if u.push(s.last()).contains(x) && x != s.last() {
                let k = choose|k: int| 0 <= k < u.len() + 1 && u.push(s.last())[k] == x;
                assert(u[k] == x);
            }
        }
    }
}

/// `unique_seq` repeats no element.
pub proof fn lemma_unique_no_duplicates<A>(s: Seq<A>)
    ensures
        unique_seq(s).no_duplicates(),
        unique_seq(s).len() <= s.len(),
    decreases s.len(),
{
    if s.len() > 0 {
        let p = s.drop_last();
        lemma_unique_no_duplicates(p);
        let u = unique_seq(p);
        if !u.contains(s.last()) {
            let v = u.push(s.last());
            assert forall|i: int, j: int| 0 <= i < v.len() && 0 <= j < v.len() && i != j implies v[i] != v[j] by {
                if i == u.len() {
                    assert(u[j] == v[j]);
                } else if j == u.len() {
                    assert(u[i] == v[i]);
                } else {
                    assert(u[i] == v[i] && u[j] == v[j]);
                }
            }
        }
    }
}

/// An element of one of the sets occurs in their concatenation.
pub proof fn lemma_flatten_contains<A>(sets: Seq<Seq<A>>, j: int, x: A)
    requires
        0 <= j < sets.len(),
        sets[j].contains(x),
    ensures
        flatten_seq(sets).contains(x),
    decreases sets.len(),
{
    let p = sets.drop_last();
    let k = choose|k: int| 0 <= k < sets[j].len() && sets[j][k] == x;
    if j == sets.len() - 1 {
        let f = flatten_seq(p) + sets.last();
        assert(f[flatten_seq(p).len() + k] == x);
    } else {
        assert(p[j] == sets[j]);
        lemma_flatten_contains(p, j, x);
        let w = choose|w: int| 0 <= w < flatten_seq(p).len() && flatten_seq(p)[w] == x;
        let f = flatten_seq(p) + sets.last();
        assert(f[w] == x);
    }
}

/// The product of the sizes of the sets; 1 for no sets.
pub open spec fn product_of_lens<A>(sets: Seq<Seq<A>>) -> nat
    decreases sets.len(),
{
    if sets.len() == 0 {
        1
    } else {
        sets[0].len() * product_of_lens(sets.drop_first())
    }
}

/// Pairing each of `xs` with each of `rest` gives `|xs| * |rest|` choices.
proof fn lemma_product_with_len<A>(xs: Seq<A>, rest: Seq<Seq<A>>)
    ensures
        product_with(xs, rest).len() == xs.len() * rest.len(),
    decreases xs.len(),
{
    if xs.len() > 0 {
        lemma_product_with_len(xs.drop_first(), rest);
        let n = xs.len();
        let m = rest.len();
        assert(n * m == m + (n - 1) * m) by (nonlinear_arith)
            requires
                n > 0,
        ;
    }
}

/// A shader gets one variant per combination: as many as the product of
/// the sizes of its keyword sets.
pub proof fn lemma_combination_count<A>(sets: Seq<Seq<A>>)
    ensures
        cartesian(sets).len() == product_of_lens(sets),
    decreases sets.len(),
{
    if sets.len() > 0 {
        lemma_combination_count(sets.drop_first());
        lemma_product_with_len(sets[0], cartesian(sets.drop_first()));
    }
}

/// Every element of `product_with(xs, rest)` is one element of `xs`
/// followed by one element of `rest`.
pub proof fn lemma_product_with_members<A>(xs: Seq<A>, rest: Seq<Seq<A>>, k: int)
    requires
        0 <= k < product_with(xs, rest).len(),
    ensures
        exists|i: int, m: int|
            0 <= i < xs.len() && 0 <= m < rest.len() && product_with(xs, rest)[k] == seq![xs[i]] + rest[m],
    decreases xs.len(),
{
    let head = rest.map_values(|r: Seq<A>| seq![xs[0]] + r);
    let tail = product_with(xs.drop_first(), rest);
    assert(product_with(xs, rest) == head + tail);
    if k < head.len() {
        assert(product_with(xs, rest)[k] == seq![xs[0]] + rest[k]);
    } else {
        lemma_product_with_members(xs.drop_first(), rest, k - head.len());
        let (i, m) = choose|i: int, m: int|
            0 <= i < xs.drop_first().len() && 0 <= m < rest.len() && tail[k - head.len()] == seq![
                xs.drop_first()[i],
            ] + rest[m];
        assert(xs.drop_first()[i] == xs[i + 1]);
        assert(product_with(xs, rest)[k] == seq![xs[i + 1]] + rest[m]);
    }
}

/// Every combination takes exactly one element from each set, in order.
pub proof fn lemma_cartesian_members<A>(sets: Seq<Seq<A>>, k: int)
    requires
        0 <= k < cartesian(sets).len(),
    ensures
        cartesian(sets)[k].len() == sets.len(),
        forall|j: int| 0 <= j < sets.len() ==> sets[j].contains(#[trigger] cartesian(sets)[k][j]),
    decreases sets.len(),
{
    if sets.len() == 0 {
        assert(cartesian(sets)[k] == Seq::<A>::empty());
    } else {
        let rest = cartesian(sets.drop_first());
        lemma_product_with_members(sets[0], rest, k);
        let (i, m) = choose|i: int, m: int|
            0 <= i < sets[0].len() && 0 <= m < rest.len() && product_with(sets[0], rest)[k] == seq![
                sets[0][i],
            ] + rest[m];
        lemma_cartesian_members(sets.drop_first(), m);
        let c = cartesian(sets)[k];
        assert(c == seq![sets[0][i]] + rest[m]);
        assert forall|j: int| 0 <= j < sets.len() implies sets[j].contains(#[trigger] c[j]) by {
            if j == 0 {
                assert(c[0] == sets[0][i]);
            } else {
                assert(c[j] == rest[m][j - 1]);
                assert(sets.drop_first()[j - 1] == sets[j]);
            }
        }
    }
}

/// When no set is empty, the first combination takes the first element of
/// every set.
pub proof fn lemma_cartesian_first<A>(sets: Seq<Seq<A>>)
    requires
        forall|j: int| 0 <= j < sets.len() ==> (#[trigger] sets[j]).len() > 0,
    ensures
        cartesian(sets).len() > 0,
        cartesian(sets)[0] == Seq::new(sets.len(), |j: int| sets[j][0]),
    decreases sets.len(),
{
    if sets.len() == 0 {
        assert(cartesian(sets)[0] =~= Seq::new(sets.len(), |j: int| sets[j][0]));
    } else {
        let t = sets.drop_first();
        assert forall|j: int| 0 <= j < t.len() implies (#[trigger] t[j]).len() > 0 by {
            assert(t[j] == sets[j + 1]);
        }
        lemma_cartesian_first(t);
        let rest = cartesian(t);
        let head = rest.map_values(|r: Seq<A>| seq![sets[0][0]] + r);
        assert(cartesian(sets) == head + product_with(sets[0].drop_first(), rest));
        assert(cartesian(sets)[0] == seq![sets[0][0]] + rest[0]);
        assert(cartesian(sets)[0] =~= Seq::new(sets.len(), |j: int| sets[j][0]));
    }
}

/// The number of keywords of `u` that are not the placeholder.
pub open spec fn non_placeholder_count(u: Seq<Seq<char>>) -> nat
    decreases u.len(),
{
    if u.len() == 0 {
        0
    } else if u.last() == placeholder() {
        non_placeholder_count(u.drop_last())
    } else {
        non_placeholder_count(u.drop_last()) + 1
    }
}

/// The bits of the `i`-th distinct keyword: none for the placeholder, else
/// the next unused bit.
pub open spec fn keyword_bit(u: Seq<Seq<char>>, i: int) -> u32 {
    if u[i] == placeholder() {
        0
    } else {
        1u32 << (non_placeholder_count(u.take(i)) as u32)
    }
}

/// The keyword-to-bits table built from distinct keywords `u`.
pub open spec fn keyword_bits(u: Seq<Seq<char>>) -> Seq<(Seq<char>, u32)> {
    Seq::new(u.len(), |i: int| (u[i], keyword_bit(u, i)))
}

/// The keyword-to-bits table of a shader with the given keyword sets: its
/// distinct keywords in order of first occurrence.
pub open spec fn bitfield_map_for(sets: Seq<Seq<Seq<char>>>) -> Seq<(Seq<char>, u32)> {
    keyword_bits(unique_seq(flatten_seq(sets)))
}

/// The bits of `keyword` in the table `m`: those of its first entry.
pub open spec fn lookup_bits(m: Seq<(Seq<char>, u32)>, keyword: Seq<char>) -> Option<u32>
    decreases m.len(),
{
    if m.len() == 0 {
        None
    } else if m[0].0 == keyword {
        Some(m[0].1)
    } else {
        lookup_bits(m.drop_first(), keyword)
    }
}

/// The bits of a keyword, none when the table does not know it.
pub open spec fn bits_or_zero(m: Seq<(Seq<char>, u32)>, keyword: Seq<char>) -> u32 {
    match lookup_bits(m, keyword) {
        Some(b) => b,
        None => 0,
    }
}

/// The variant bitfield of a list of keywords: the union of their bits.
pub open spec fn or_bits(m: Seq<(Seq<char>, u32)>, keywords: Seq<Seq<char>>) -> u32
    decreases keywords.len(),
{
    if keywords.len() == 0 {
        0
    } else {
        or_bits(m, keywords.drop_last()) | bits_or_zero(m, keywords.last())
    }
}

/// A table lookup finds every keyword the table lists, and in a table
/// without repeated keywords it finds that entry's bits.
pub proof fn lemma_lookup_finds(m: Seq<(Seq<char>, u32)>, i: int)
    requires
        0 <= i < m.len(),
    ensures
        lookup_bits(m, m[i].0) is Some,
        (forall|a: int, b: int| 0 <= a < b < m.len() ==> (#[trigger] m[a]).0 != (#[trigger] m[b]).0)
            ==> lookup_bits(m, m[i].0) == Some(m[i].1),
    decreases m.len(),
{
    if i > 0 && m[0].0 != m[i].0 {
        assert(m.drop_first()[i - 1] == m[i]);
        lemma_lookup_finds(m.drop_first(), i - 1);
        if forall|a: int, b: int| 0 <= a < b < m.len() ==> (#[trigger] m[a]).0 != (#[trigger] m[b]).0 {
            let t = m.drop_first();
            assert forall|a: int, b: int| 0 <= a < b < t.len() implies (#[trigger] t[a]).0 != (#[trigger] t[b]).0 by {
                assert(t[a] == m[a + 1] && t[b] == m[b + 1]);
            }
        }
    } else if i > 0 {
        if forall|a: int, b: int| 0 <= a < b < m.len() ==> (#[trigger] m[a]).0 != (#[trigger] m[b]).0 {
            assert(m[0].0 != m[i].0);
        }
    }
}

/// A keyword the table does not list has no bits.
pub proof fn lemma_lookup_absent(m: Seq<(Seq<char>, u32)>, keyword: Seq<char>)
    requires
        forall|i: int| 0 <= i < m.len() ==> (#[trigger] m[i]).0 != keyword,
    ensures
        lookup_bits(m, keyword) is None,
    decreases m.len(),
{
    if m.len() > 0 {
        let t = m.drop_first();
        assert forall|i: int| 0 <= i < t.len() implies (#[trigger] t[i]).0 != keyword by {
            assert(t[i] == m[i + 1]);
        }
        lemma_lookup_absent(t, keyword);
    }
}

proof fn lemma_or_facts(a: u32, b: u32, c: u32)
    ensures
        ((a | b) | b) == (a | b),
        ((a | b) | c) == ((a | c) | b),
{
    assert(((a | b) | b) == (a | b)) by (bit_vector);
    assert(((a | b) | c) == ((a | c) | b)) by (bit_vector);
}

/// The union of the bits of a list already holds the bits of each of its
/// keywords.
pub proof fn lemma_or_absorbs(m: Seq<(Seq<char>, u32)>, ks: Seq<Seq<char>>, x: Seq<char>)
    requires
        ks.contains(x),
    ensures
        (or_bits(m, ks) | bits_or_zero(m, x)) == or_bits(m, ks),
    decreases ks.len(),
{
    let p = ks.drop_last();
    let y = ks.last();
    lemma_or_facts(or_bits(m, p), bits_or_zero(m, y), bits_or_zero(m, x));
    if y != x {
        let k = choose|k: int| 0 <= k < ks.len() && ks[k] == x;
        assert(p[k] == x);
        lemma_or_absorbs(m, p, x);
    }
}

/// Repeated keywords do not change a variant's bitfield.
pub proof fn lemma_or_unique(m: Seq<(Seq<char>, u32)>, ks: Seq<Seq<char>>)
    ensures
        or_bits(m, unique_seq(ks)) == or_bits(m, ks),
    decreases ks.len(),
{
    if ks.len() > 0 {
        let p = ks.drop_last();
        let x = ks.last();
        lemma_or_unique(m, p);
        let u = unique_seq(p);
        if u.contains(x) {
            lemma_unique_contains(p, x);
            lemma_or_absorbs(m, p, x);
        } else {
            assert(u.push(x).drop_last() == u);
        }
    }
}

/// The non-placeholder count never decreases along a sequence.
pub proof fn lemma_count_prefix(u: Seq<Seq<char>>, i: int, j: int)
    requires
        0 <= i <= j <= u.len(),
    ensures
        non_placeholder_count(u.take(i)) <= non_placeholder_count(u.take(j)),
        j > i && u[i] != placeholder() ==> non_placeholder_count(u.take(i)) < non_placeholder_count(u.take(j)),
    decreases j - i,
{
    if j > i {
        lemma_count_prefix(u, i, j - 1);
        assert(u.take(j).drop_last() == u.take(j - 1));
        if j - 1 == i {
            assert(u.take(j).last() == u[i]);
        }
    }
}

proof fn lemma_single_bit(a: u32)
    requires
        a < 32,
    ensures
        (1u32 << a) != 0,
{
    assert((1u32 << a) != 0) by (bit_vector)
        requires a < 32;
}

proof fn lemma_single_bits(a: u32, b: u32)
    requires
        a < 32,
        b < 32,
        a != b,
    ensures
        ((1u32 << a) & (1u32 << b)) == 0,
{
    assert(((1u32 << a) & (1u32 << b)) == 0) by (bit_vector)
        requires a < 32, b < 32, a != b;
}

/// Distinct keywords other than the placeholder own distinct single bits,
/// and the placeholder owns none.
pub proof fn lemma_keyword_bits_disjoint(u: Seq<Seq<char>>, i: int, j: int)
    requires
        0 <= i < j < u.len(),
        non_placeholder_count(u) <= 32,
    ensures
        u[i] == placeholder() ==> keyword_bit(u, i) == 0,
        u[i] != placeholder() ==> keyword_bit(u, i) != 0,
        (keyword_bit(u, i) & keyword_bit(u, j)) == 0,
{
    lemma_count_prefix(u, i, j);
    lemma_count_prefix(u, j, u.len() as int);
    lemma_count_prefix(u, i, u.len() as int);
    assert(u.take(u.len() as int) == u);
    let a = non_placeholder_count(u.take(i)) as u32;
    let b = non_placeholder_count(u.take(j)) as u32;
    if u[i] != placeholder() {
        lemma_single_bit(a);
    }
    if u[i] != placeholder() && u[j] != placeholder() {
        lemma_single_bits(a, b);
    } else if u[i] != placeholder() {
        let x = keyword_bit(u, i);
        assert((x & 0u32) == 0) by (bit_vector);
    } else {
        let x = keyword_bit(u, j);
        assert((0u32 & x) == 0) by (bit_vector);
    }
}

} // verus!
