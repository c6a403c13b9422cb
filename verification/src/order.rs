//! Byte-lexicographic order on names, and the order in which a list of names
//! is walked when it is sorted.

use vstd::prelude::*;
use vstd::utf8::encode_utf8;

verus! {

/// Lexicographic order on byte strings: a proper prefix comes first, and
/// otherwise the first differing byte decides.
pub open spec fn lex_less(a: Seq<u8>, b: Seq<u8>) -> bool
    decreases a.len(),
{
    if b.len() == 0 {
        false
    } else if a.len() == 0 {
        true
    } else if a[0] != b[0] {
        a[0] < b[0]
    } else {
        lex_less(a.drop_first(), b.drop_first())
    }
}

/// Order of two names by the bytes of their UTF-8 encoding.
pub open spec fn name_less(a: Seq<char>, b: Seq<char>) -> bool {
    lex_less(encode_utf8(a), encode_utf8(b))
}

/// Whether the name at index `i` is walked before the name at index `j`:
/// the smaller name first, and of two equal names the one that stood first.
pub open spec fn comes_before(names: Seq<Seq<char>>, i: int, j: int) -> bool {
    name_less(names[i], names[j]) || (!name_less(names[j], names[i]) && i < j)
}

/// `order` walks every index of `names` once, in ascending order of the names,
/// equal names in the order given.
pub open spec fn is_sorted_order(names: Seq<Seq<char>>, order: Seq<usize>) -> bool {
    &&& order.len() == names.len()
    &&& forall|p: int| 0 <= p < order.len() ==> (#[trigger] order[p]) < names.len()
    &&& forall|p: int, q: int|
        0 <= p < q < order.len() ==> comes_before(names, #[trigger] order[p] as int, #[trigger] order[q] as int)
    &&& forall|k: usize| k < names.len() ==> #[trigger] order.contains(k)
}

/// No byte string is less than itself.
pub proof fn lemma_lex_irreflexive(a: Seq<u8>)
    ensures
        !lex_less(a, a),
    decreases a.len(),
{
    if a.len() > 0 {
        lemma_lex_irreflexive(a.drop_first());
    }
}

/// Of two byte strings one is less than the other, or they are equal.
pub proof fn lemma_lex_total(a: Seq<u8>, b: Seq<u8>)
    ensures
        lex_less(a, b) || lex_less(b, a) || a == b,
        !(lex_less(a, b) && lex_less(b, a)),
    decreases a.len(),
{
    if a.len() == 0 || b.len() == 0 {
        assert(a.len() == 0 && b.len() == 0 ==> a =~= b);
    } else if a[0] == b[0] {
        lemma_lex_total(a.drop_first(), b.drop_first());
        if a.drop_first() == b.drop_first() {
            assert(a =~= seq![a[0]] + a.drop_first());
            assert(b =~= seq![b[0]] + b.drop_first());
        }
    }
}

/// The order on byte strings is transitive.
pub proof fn lemma_lex_transitive(a: Seq<u8>, b: Seq<u8>, c: Seq<u8>)
    requires
        lex_less(a, b),
        lex_less(b, c),
    ensures
        lex_less(a, c),
    decreases a.len(),
{
    if a.len() > 0 && a[0] == b[0] && b[0] == c[0] {
        lemma_lex_transitive(a.drop_first(), b.drop_first(), c.drop_first());
    }
}

/// The walking order is transitive.
pub proof fn lemma_comes_before_transitive(names: Seq<Seq<char>>, i: int, j: int, k: int)
    requires
        comes_before(names, i, j),
        comes_before(names, j, k),
    ensures
        comes_before(names, i, k),
{
    let a = encode_utf8(names[i]);
    let b = encode_utf8(names[j]);
    let c = encode_utf8(names[k]);
    lemma_lex_total(a, b);
    lemma_lex_total(b, c);
    lemma_lex_total(a, c);
    if lex_less(a, b) && lex_less(b, c) {
        lemma_lex_transitive(a, b, c);
    }
    if lex_less(c, a) && lex_less(a, b) {
        lemma_lex_transitive(c, a, b);
    }
    if lex_less(b, c) && lex_less(c, a) {
        lemma_lex_transitive(b, c, a);
    }
}

/// Of two different indices one is walked before the other.
pub proof fn lemma_comes_before_total(names: Seq<Seq<char>>, i: int, j: int)
    requires
        i != j,
    ensures
        comes_before(names, i, j) || comes_before(names, j, i),
        !(comes_before(names, i, j) && comes_before(names, j, i)),
{
    lemma_lex_total(encode_utf8(names[i]), encode_utf8(names[j]));
}

/// The texts of a list of names.
pub open spec fn texts(names: Seq<String>) -> Seq<Seq<char>> {
    Seq::new(names.len(), |i: int| names[i]@)
}

/// The order in which `names` is walked when sorted.
pub open spec fn sorted_order(names: Seq<Seq<char>>) -> Seq<usize> {
    choose|order: Seq<usize>| is_sorted_order(names, order)
}

proof fn lemma_orders_agree(names: Seq<Seq<char>>, a: Seq<usize>, b: Seq<usize>, upto: int)
    requires
        is_sorted_order(names, a),
        is_sorted_order(names, b),
        0 <= upto <= names.len(),
    ensures
        forall|q: int| 0 <= q < upto ==> a[q] == b[q],
    decreases upto,
{
    if upto > 0 {
        let p = upto - 1;
        lemma_orders_agree(names, a, b, p);
        assert(b.contains(a[p]));
        let r = choose|r: int| 0 <= r < b.len() && b[r] == a[p];
        assert(a.contains(b[p]));
        let s = choose|s: int| 0 <= s < a.len() && a[s] == b[p];
        lemma_lex_irreflexive(encode_utf8(names[a[p] as int]));
        lemma_lex_irreflexive(encode_utf8(names[b[p] as int]));
        if r < p {
            assert(comes_before(names, a[r] as int, a[p] as int));
        }
        if s < p {
            assert(comes_before(names, b[s] as int, b[p] as int));
        }
        if r > p && s > p {
            lemma_comes_before_total(names, a[p] as int, a[s] as int);
        }
        if r > p && s == p {
            lemma_comes_before_total(names, b[p] as int, b[r] as int);
        }
    }
}

/// There is only one sorted walking order: any order that walks every index
/// once, ascending by name and stable, is the sorted order.
pub proof fn lemma_sorted_order_unique(names: Seq<Seq<char>>, order: Seq<usize>)
    requires
        is_sorted_order(names, order),
    ensures
        sorted_order(names) == order,
{
    let chosen = sorted_order(names);
    lemma_orders_agree(names, chosen, order, names.len() as int);
    assert(chosen =~= order);
}

/// Whether `a` comes before `b` in byte-lexicographic order.
pub fn bytes_less(a: &[u8], b: &[u8]) -> (less: bool)
    ensures
        less == lex_less(a@, b@),
{
    let mut i: usize = 0;
    assert(a@.skip(0) =~= a@ && b@.skip(0) =~= b@);
    while i < a.len() && i < b.len()
        invariant
            i <= a.len(),
            i <= b.len(),
            lex_less(a@, b@) == lex_less(a@.skip(i as int), b@.skip(i as int)),
        decreases a.len() - i,
    {
        proof {
            assert(a@.skip(i as int).drop_first() =~= a@.skip(i + 1));
            assert(b@.skip(i as int).drop_first() =~= b@.skip(i + 1));
        }
        if a[i] != b[i] {
            return a[i] < b[i];
        }
        i += 1;
    }
    i < b.len()
}

/// Whether the name `a` sorts before the name `b`.
pub fn name_precedes(a: &str, b: &str) -> (less: bool)
    ensures
        less == name_less(a@, b@),
{
    bytes_less(a.as_bytes(), b.as_bytes())
}

/// The order in which `names` is walked when sorted by name: a stable sort,
/// given as the indices into `names`.
pub fn sorted_indices(names: &Vec<String>) -> (order: Vec<usize>)
    ensures
        is_sorted_order(texts(names@), order@),
        order@ == sorted_order(texts(names@)),
{
    let ghost keys = texts(names@);
    let mut order: Vec<usize> = Vec::new();
    let mut i: usize = 0;
    while i < names.len()
        invariant
            i <= names.len(),
            keys == texts(names@),
            order.len() == i,
            forall|p: int| 0 <= p < order.len() ==> (#[trigger] order[p]) < i,
            forall|p: int, q: int|
                0 <= p < q < order.len() ==> comes_before(
                    keys,
                    #[trigger] order[p] as int,
                    #[trigger] order[q] as int,
                ),
            forall|k: usize| k < i ==> #[trigger] order@.contains(k),
        decreases names.len() - i,
    {
        let mut j: usize = i;
        while j > 0 && name_precedes(names[i].as_str(), names[order[j - 1]].as_str())
            invariant
                j <= i,
                i < names.len(),
                keys == texts(names@),
                order.len() == i,
                forall|p: int| 0 <= p < order.len() ==> (#[trigger] order[p]) < i,
                forall|q: int| j <= q < order.len() ==> comes_before(keys, i as int, #[trigger] order[q] as int),
            decreases j,
        {
            j -= 1;
        }
        let ghost before = order@;
        proof {
            if j > 0 {
                let last = before[j - 1] as int;
                lemma_comes_before_total(keys, i as int, last);
                assert forall|p: int| 0 <= p < j implies comes_before(keys, #[trigger] before[p] as int, i as int) by {
                    if p < j - 1 {
                        lemma_comes_before_transitive(keys, before[p] as int, last, i as int);
                    }
                }
            }
        }
        order.insert(j, i);
        proof {
            assert forall|k: usize| k < i + 1 implies #[trigger] order@.contains(k) by {
                if k < i {
                    assert(before.contains(k));
                    let p0 = choose|p: int| 0 <= p < before.len() && before[p] == k;
                    if p0 < j {
                        assert(order[p0] == k);
                    } else {
                        assert(order[p0 + 1] == k);
                    }
                } else {
                    assert(order[j as int] == k);
                }
            }
            assert forall|p: int, q: int| 0 <= p < q < order.len() implies comes_before(
                keys,
                #[trigger] order[p] as int,
                #[trigger] order[q] as int,
            ) by {
                if p < j && q > j {
                    assert(order[p] == before[p]);
                    assert(order[q] == before[q - 1]);
                } else if p < j && q < j {
                    assert(order[p] == before[p]);
                    assert(order[q] == before[q]);
                } else if p > j {
                    assert(order[p] == before[p - 1]);
                    assert(order[q] == before[q - 1]);
                } else if q == j {
                    assert(order[p] == before[p]);
                } else {
                    assert(order[q] == before[q - 1]);
                }
            }
        }
        i += 1;
    }
    proof {
        lemma_sorted_order_unique(keys, order@);
    }
    order
}

} // verus!
