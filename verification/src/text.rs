//! Lexicographic order on strings by Unicode scalar value, sorting, and
//! comma-joining, used to normalise HLA profiles.

use vstd::prelude::*;
use vstd::string::StrSliceExecFns;
use vstd::string::StringExecFns;
use vstd::slice::slice_index_get;

verus! {

/// Lexicographic order on character sequences, by scalar value.
pub open spec fn lex_le(a: Seq<char>, b: Seq<char>) -> bool
    decreases a.len(),
{
    if a.len() == 0 {
        true
    } else if b.len() == 0 {
        false
    } else if (a[0] as u32) < (b[0] as u32) {
        true
    } else if (b[0] as u32) < (a[0] as u32) {
        false
    } else {
        lex_le(a.skip(1), b.skip(1))
    }
}

/// Every pair of positions is ordered.
pub open spec fn lex_sorted(s: Seq<Seq<char>>) -> bool {
    forall|i: int, j: int| 0 <= i < j < s.len() ==> lex_le(#[trigger] s[i], #[trigger] s[j])
}

/// The sequences joined in order with a comma between neighbours.
pub open spec fn join_commas(s: Seq<Seq<char>>) -> Seq<char>
    decreases s.len(),
{
    if s.len() == 0 {
        Seq::empty()
    } else if s.len() == 1 {
        s[0]
    } else {
        s[0] + seq![','] + join_commas(s.skip(1))
    }
}

/// `out` is the comma-join of some sorted rearrangement of `elems`.
pub open spec fn sorted_and_joined(elems: Seq<Seq<char>>, out: Seq<char>) -> bool {
    exists|ss: Seq<Seq<char>>|
        ss.to_multiset() == elems.to_multiset() && lex_sorted(ss) && out == join_commas(ss)
}

/// The order is total.
pub proof fn lemma_lex_le_total(a: Seq<char>, b: Seq<char>)
    ensures
        lex_le(a, b) || lex_le(b, a),
    decreases a.len(),
{
    if a.len() == 0 {
    } else if b.len() == 0 {
    } else if (a[0] as u32) < (b[0] as u32) {
    } else if (b[0] as u32) < (a[0] as u32) {
    } else {
        lemma_lex_le_total(a.skip(1), b.skip(1));
    }
}

/// The order is transitive.
pub proof fn lemma_lex_le_trans(a: Seq<char>, b: Seq<char>, c: Seq<char>)
    requires
        lex_le(a, b),
        lex_le(b, c),
    ensures
        lex_le(a, c),
    decreases a.len(),
{
    if a.len() == 0 {
    } else if b.len() == 0 {
    } else if c.len() == 0 {
    } else if (a[0] as u32) < (b[0] as u32) {
    } else if (b[0] as u32) < (a[0] as u32) {
    } else {
        if (b[0] as u32) < (c[0] as u32) {
        } else if (c[0] as u32) < (b[0] as u32) {
        } else {
            lemma_lex_le_trans(a.skip(1), b.skip(1), c.skip(1));
        }
    }
}

/// Decide `lex_le` on string slices.
pub fn str_lex_le(a: &str, b: &str) -> (r: bool)
    ensures
        r == lex_le(a@, b@),
{
    let alen = a.unicode_len();
    let blen = b.unicode_len();
    let mut i: usize = 0;
    proof {
        assert(a@.skip(0) =~= a@);
        assert(b@.skip(0) =~= b@);
    }
    loop
        invariant
            i <= alen,
            i <= blen,
            alen == a@.len(),
            blen == b@.len(),
            lex_le(a@, b@) == lex_le(a@.skip(i as int), b@.skip(i as int)),
        decreases alen - i,
    {
        if i >= alen {
            proof {
                assert(a@.skip(i as int).len() == 0);
            }
            return true;
        }
        if i >= blen {
            proof {
                assert(b@.skip(i as int).len() == 0);
                assert(a@.skip(i as int).len() > 0);
            }
            return false;
        }
        let ca = a.get_char(i);
        let cb = b.get_char(i);
        proof {
            assert(a@.skip(i as int)[0] == a@[i as int]);
            assert(b@.skip(i as int)[0] == b@[i as int]);
        }
        if (ca as u32) < (cb as u32) {
            return true;
        }
        if (cb as u32) < (ca as u32) {
            return false;
        }
        proof {
            assert(a@.skip(i as int).skip(1) =~= a@.skip(i as int + 1));
            assert(b@.skip(i as int).skip(1) =~= b@.skip(i as int + 1));
        }
        i = i + 1;
    }
}

/// The spec-level image of a sequence of strings.
pub open spec fn string_views(s: Seq<String>) -> Seq<Seq<char>> {
    s.map_values(|t: String| t@)
}

/// Insert `x` into an already sorted vector, keeping it sorted; the contents
/// grow by exactly `x`.
fn insert_sorted(r: &mut Vec<String>, x: String)
    requires
        lex_sorted(string_views(old(r)@)),
    ensures
        lex_sorted(string_views(final(r)@)),
        string_views(final(r)@).to_multiset() == string_views(old(r)@).to_multiset().insert(x@),
{
    broadcast use vstd::seq_lib::group_to_multiset_ensures;
    broadcast use vstd::multiset::group_multiset_axioms;

    let ghost s = string_views(r@);
    let n = r.len();
    let mut j: usize = 0;
    while j < n && str_lex_le(r[j].as_str(), x.as_str())
        invariant
            j <= n,
            n == r@.len(),
            s == string_views(r@),
            lex_sorted(s),
            forall|k: int| 0 <= k < j ==> lex_le(#[trigger] s[k], x@),
        decreases n - j,
    {
        j = j + 1;
    }
    proof {
        if j < n {
            lemma_lex_le_total(s[j as int], x@);
            assert(lex_le(x@, s[j as int]));
        }
    }
    r.insert(j, x);
    proof {
        let t = string_views(r@);
        assert(t =~= s.insert(j as int, x@));
        // Sortedness of the extended sequence.
        assert forall|p: int, q: int| 0 <= p < q < t.len() implies lex_le(t[p], t[q]) by {
            if q < j {
            } else if p < j && q == j {
            } else if p < j && q > j {
            } else if p == j && q > j {
                if j < s.len() {
                    if q - 1 > j {
                        lemma_lex_le_trans(x@, s[j as int], s[q - 1]);
                    }
                }
            } else {
            }
        }
        // The contents grow by exactly x.
        assert(t.remove(j as int) =~= s);
        assert(t[j as int] == x@);
        assert(s.to_multiset() == t.to_multiset().remove(x@));
        assert(t.to_multiset().contains(x@));
        assert(t.to_multiset() =~= s.to_multiset().insert(x@));
    }
}

/// Sort strings into lexicographic order; the contents are unchanged.
pub fn sort_strings(v: Vec<String>) -> (r: Vec<String>)
    ensures
        lex_sorted(string_views(r@)),
        string_views(r@).to_multiset() == string_views(v@).to_multiset(),
{
    broadcast use vstd::seq_lib::group_to_multiset_ensures;
    broadcast use vstd::multiset::group_multiset_axioms;

    let mut out: Vec<String> = Vec::new();
    let n = v.len();
    let mut i: usize = 0;
    proof {
        assert(string_views(v@.take(0)) =~= Seq::<Seq<char>>::empty());
        assert(string_views(out@) =~= Seq::<Seq<char>>::empty());
    }
    while i < n
        invariant
            i <= n,
            n == v@.len(),
            lex_sorted(string_views(out@)),
            string_views(out@).to_multiset() == string_views(v@.take(i as int)).to_multiset(),
        decreases n - i,
    {
        let x = v[i].clone();
        proof {
            let prev = string_views(v@.take(i as int));
            assert(string_views(v@.take(i as int + 1)) =~= prev.push(v@[i as int]@));
            vstd::seq_lib::to_multiset_build(prev, v@[i as int]@);
        }
        insert_sorted(&mut out, x);
        i = i + 1;
    }
    proof {
        assert(v@.take(n as int) =~= v@);
    }
    out
}

/// How `join_commas` grows when one more piece is appended.
proof fn lemma_join_commas_snoc(s: Seq<Seq<char>>, x: Seq<char>)
    requires
        s.len() >= 1,
    ensures
        join_commas(s.push(x)) == join_commas(s) + seq![','] + x,
    decreases s.len(),
{
    if s.len() == 1 {
        assert(s.push(x).skip(1) =~= seq![x]);
        assert(join_commas(seq![x]) == x);
        assert(join_commas(s.push(x)) =~= s[0] + seq![','] + x);
        assert(join_commas(s) + seq![','] + x =~= s[0] + seq![','] + x);
    } else {
        assert(s.push(x).skip(1) =~= s.skip(1).push(x));
        lemma_join_commas_snoc(s.skip(1), x);
        assert(join_commas(s.push(x)) == s[0] + seq![','] + (join_commas(s.skip(1)) + seq![','] + x));
        assert(s[0] + seq![','] + (join_commas(s.skip(1)) + seq![','] + x) =~= (s[0] + seq![',']
            + join_commas(s.skip(1))) + seq![','] + x);
    }
}

/// Join the strings in order, a comma between neighbours.
pub fn join_with_commas(v: &Vec<String>) -> (r: String)
    ensures
        r@ == join_commas(string_views(v@)),
{
    let ghost s = string_views(v@);
    let mut out = String::new();
    let n = v.len();
    let mut i: usize = 0;
    proof {
        assert(s.take(0) =~= Seq::<Seq<char>>::empty());
    }
    while i < n
        invariant
            i <= n,
            n == v@.len(),
            s == string_views(v@),
            out@ == join_commas(s.take(i as int)),
        decreases n - i,
    {
        if i > 0 {
            out.append(",");
            proof {
                reveal_strlit(",");
            }
        }
        out.append(v[i].as_str());
        proof {
            assert(s.take(i as int + 1) =~= s.take(i as int).push(s[i as int]));
            if i == 0 {
                assert(join_commas(s.take(1)) == s.take(1)[0]);
                assert(s.take(1)[0] == s[0]);
            } else {
                lemma_join_commas_snoc(s.take(i as int), s[i as int]);
            }
        }
        i = i + 1;
    }
    proof {
        assert(s.take(n as int) =~= s);
    }
    out
}

/// Sort the pieces lexicographically and join them with commas.
pub fn sort_and_join(elems: &[&str]) -> (r: String)
    ensures
        sorted_and_joined(elems.deep_view(), r@),
{
    let mut v: Vec<String> = Vec::new();
    let n = elems.len();
    let mut i: usize = 0;
    while i < n
        invariant
            i <= n,
            n == elems@.len(),
            v@.len() == i,
            string_views(v@) =~= elems.deep_view().take(i as int),
        decreases n - i,
    {
        let ghost vpre = v@;
        let piece: &&str = slice_index_get(elems, i);
        let converted = String::from_str(*piece);
        let ghost cview = converted@;
        v.push(converted);
        proof {
            let dv = elems.deep_view();
            assert(v@ == vpre.push(v@[i as int]));
            assert(v@[i as int]@ == cview);
            assert(cview == elems@[i as int]@);
            assert(dv[i as int] == elems@[i as int]@);
            assert forall|k: int| 0 <= k < i + 1 implies string_views(v@)[k] == dv.take(
                i as int + 1,
            )[k] by {
                if k < i {
                    assert(string_views(vpre)[k] == dv.take(i as int)[k]);
                }
            }
            assert(string_views(v@) =~= dv.take(i as int + 1));
        }
        i = i + 1;
    }
    proof {
        assert(elems.deep_view().take(n as int) =~= elems.deep_view());
        assert(string_views(v@) == elems.deep_view());
    }
    let sorted = sort_strings(v);
    let r = join_with_commas(&sorted);
    proof {
        let ghost ss = string_views(sorted@);
        assert(ss.to_multiset() == elems.deep_view().to_multiset() && lex_sorted(ss) && r@
            == join_commas(ss));
    }
    r
}

} // verus!
