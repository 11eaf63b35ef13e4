//! Text building blocks shared by the pipeline: character-sequence order,
//! equality and prefix tests, joining, line assembly, and sorted
//! de-duplication of name lists.

use vstd::prelude::*;
use vstd::string::StrSliceExecFns;
use vstd::string::StringExecFns;

verus! {

/// Lexicographic order on character sequences, comparing code points.
pub open spec fn lex_le(a: Seq<char>, b: Seq<char>) -> bool
    decreases a.len(),
{
    if a.len() == 0 {
        true
    } else if b.len() == 0 {
        false
    } else if a[0] < b[0] {
        true
    } else if b[0] < a[0] {
        false
    } else {
        lex_le(a.skip(1), b.skip(1))
    }
}

/// `lex_le` is total: any two sequences are comparable.
pub proof fn lemma_lex_total(a: Seq<char>, b: Seq<char>)
    ensures
        lex_le(a, b) || lex_le(b, a),
    decreases a.len(),
{
    if a.len() > 0 && b.len() > 0 && !(a[0] < b[0]) && !(b[0] < a[0]) {
        lemma_lex_total(a.skip(1), b.skip(1));
    }
}

/// `lex_le` is antisymmetric: mutual order means equality.
pub proof fn lemma_lex_antisym(a: Seq<char>, b: Seq<char>)
    requires
        lex_le(a, b),
        lex_le(b, a),
    ensures
        a == b,
    decreases a.len(),
{
    if a.len() == 0 {
        assert(b.len() == 0);
        assert(a =~= b);
    } else {
        assert(b.len() > 0);
        lemma_lex_antisym(a.skip(1), b.skip(1));
        assert(a.skip(1).len() == b.skip(1).len());
        assert(a.len() == b.len());
        assert forall|i: int| 0 <= i < a.len() implies a[i] == b[i] by {
            if i > 0 {
                assert(a.skip(1)[i - 1] == a[i]);
                assert(b.skip(1)[i - 1] == b[i]);
                assert(a.skip(1)[i - 1] == b.skip(1)[i - 1]);
            } else {
                assert(a[0] == b[0]);
            }
        }
        assert(a =~= b);
    }
}

/// `lex_le` is transitive.
pub proof fn lemma_lex_trans(a: Seq<char>, b: Seq<char>, c: Seq<char>)
    requires
        lex_le(a, b),
        lex_le(b, c),
    ensures
        lex_le(a, c),
    decreases a.len(),
{
    if a.len() > 0 {
        assert(b.len() > 0);
        assert(c.len() > 0);
        if !(a[0] < b[0]) && !(b[0] < c[0]) {
            lemma_lex_trans(a.skip(1), b.skip(1), c.skip(1));
        }
    }
}

/// Decide `lex_le` on two string slices.
pub fn str_le(a: &str, b: &str) -> (r: bool)
    ensures
        r == lex_le(a@, b@),
{
    let alen: usize = a.unicode_len();
    let blen: usize = b.unicode_len();
    let mut i: usize = 0;
    proof {
        assert(a@.skip(0) =~= a@);
        assert(b@.skip(0) =~= b@);
    }
    loop
        invariant
            alen == a@.len(),
            blen == b@.len(),
            i <= alen,
            i <= blen,
            lex_le(a@, b@) == lex_le(a@.skip(i as int), b@.skip(i as int)),
        decreases alen - i,
    {
        if i >= alen {
            proof {
                assert(a@.skip(i as int).len() == 0);
            }
            return true;
        }
        if i >= blen {
            proof {
                assert(a@.skip(i as int).len() > 0);
                assert(b@.skip(i as int).len() == 0);
            }
            return false;
        }
        let ca = a.get_char(i);
        let cb = b.get_char(i);
        proof {
            assert(a@.skip(i as int)[0] == a@[i as int]);
            assert(b@.skip(i as int)[0] == b@[i as int]);
        }
        if ca < cb {
            return true;
        }
        if cb < ca {
            return false;
        }
        proof {
            assert(a@.skip(i as int).skip(1) =~= a@.skip(i as int + 1));
            assert(b@.skip(i as int).skip(1) =~= b@.skip(i as int + 1));
        }
        i = i + 1;
    }
}

/// Decide whether two string slices hold the same characters.
pub fn str_eq(a: &str, b: &str) -> (r: bool)
    ensures
        r == (a@ == b@),
{
    let alen: usize = a.unicode_len();
    let blen: usize = b.unicode_len();
    if alen != blen {
        return false;
    }
    let mut i: usize = 0;
    loop
        invariant
            alen == a@.len(),
            blen == b@.len(),
            alen == blen,
            i <= alen,
            forall|j: int| 0 <= j < i ==> a@[j] == b@[j],
        decreases alen - i,
    {
        if i >= alen {
            proof {
                assert(a@ =~= b@);
            }
            return true;
        }
        let ca = a.get_char(i);
        let cb = b.get_char(i);
        if ca != cb {
            return false;
        }
        i = i + 1;
    }
}

/// `p` is an initial segment of `s`.
pub open spec fn has_prefix(s: Seq<char>, p: Seq<char>) -> bool {
    p.len() <= s.len() && s.subrange(0, p.len() as int) == p
}

/// Decide whether `s` starts with `p`.
pub fn starts_with_str(s: &str, p: &str) -> (r: bool)
    ensures
        r == has_prefix(s@, p@),
{
    let slen: usize = s.unicode_len();
    let plen: usize = p.unicode_len();
    if plen > slen {
        return false;
    }
    let mut i: usize = 0;
    loop
        invariant
            slen == s@.len(),
            plen == p@.len(),
            plen <= slen,
            i <= plen,
            forall|j: int| 0 <= j < i ==> s@[j] == p@[j],
        decreases plen - i,
    {
        if i >= plen {
            proof {
                assert(s@.subrange(0, plen as int) =~= p@);
            }
            return true;
        }
        let cs = s.get_char(i);
        let cp = p.get_char(i);
        if cs != cp {
            proof {
                assert(s@.subrange(0, plen as int)[i as int] == s@[i as int]);
            }
            return false;
        }
        i = i + 1;
    }
}

/// The parts joined with `sep` between consecutive parts.
pub open spec fn join_with(parts: Seq<Seq<char>>, sep: Seq<char>) -> Seq<char>
    decreases parts.len(),
{
    if parts.len() == 0 {
        Seq::empty()
    } else if parts.len() == 1 {
        parts[0]
    } else {
        join_with(parts.drop_last(), sep) + sep + parts.last()
    }
}

/// Join a list of strings with a separator.
pub fn join_strings(parts: &Vec<String>, sep: &str) -> (r: String)
    ensures
        r@ == join_with(parts.deep_view(), sep@),
{
    let mut r = String::new();
    let mut i: usize = 0;
    while i < parts.len()
        invariant
            i <= parts.len(),
            parts.deep_view().len() == parts.len(),
            r@ == join_with(parts.deep_view().take(i as int), sep@),
        decreases parts.len() - i,
    {
        if i > 0 {
            r.append(sep);
        }
        r.append(parts[i].as_str());
        proof {
            let dv = parts.deep_view();
            assert(dv.take(i as int + 1).drop_last() =~= dv.take(i as int));
            assert(dv.take(i as int + 1).last() == dv[i as int]);
            if i == 0 {
                assert(r@ =~= dv.take(1)[0]);
            }
        }
        i = i + 1;
    }
    proof {
        assert(parts.deep_view().take(parts.len() as int) =~= parts.deep_view());
    }
    r
}

/// The text of a sequence of lines: each line followed by a newline.
pub open spec fn lines_text(lines: Seq<Seq<char>>) -> Seq<char>
    decreases lines.len(),
{
    if lines.len() == 0 {
        Seq::empty()
    } else {
        lines_text(lines.drop_last()) + lines.last() + seq!['\n']
    }
}

/// The view of a one-character newline string.
pub proof fn lemma_newline_view()
    ensures
        "\n"@ == seq!['\n'],
{
    reveal_strlit("\n");
    assert("\n"@ =~= seq!['\n']);
}

/// Concatenate lines into one text, terminating each with a newline.
pub fn write_lines(lines: &Vec<String>) -> (r: String)
    ensures
        r@ == lines_text(lines.deep_view()),
{
    let mut r = String::new();
    let mut i: usize = 0;
    while i < lines.len()
        invariant
            i <= lines.len(),
            lines.deep_view().len() == lines.len(),
            r@ == lines_text(lines.deep_view().take(i as int)),
        decreases lines.len() - i,
    {
        r.append(lines[i].as_str());
        r.append("\n");
        proof {
            lemma_newline_view();
            let dv = lines.deep_view();
            assert(dv.take(i as int + 1).drop_last() =~= dv.take(i as int));
            assert(dv.take(i as int + 1).last() == dv[i as int]);
        }
        i = i + 1;
    }
    proof {
        assert(lines.deep_view().take(lines.len() as int) =~= lines.deep_view());
    }
    r
}

/// Decide whether a list of strings holds the given characters.
pub fn contains_string(v: &Vec<String>, x: &str) -> (r: bool)
    ensures
        r == v.deep_view().contains(x@),
{
    let mut i: usize = 0;
    while i < v.len()
        invariant
            i <= v.len(),
            v.deep_view().len() == v.len(),
            forall|j: int| 0 <= j < i ==> v.deep_view()[j] != x@,
        decreases v.len() - i,
    {
        if str_eq(v[i].as_str(), x) {
            proof {
                assert(v.deep_view()[i as int] == x@);
            }
            return true;
        }
        i = i + 1;
    }
    false
}

/// Every pair of positions is ordered.
pub open spec fn sorted_strs(s: Seq<Seq<char>>) -> bool {
    forall|i: int, j: int| 0 <= i < j < s.len() ==> lex_le(s[i], s[j])
}

/// No two positions hold the same characters.
pub open spec fn distinct_strs(s: Seq<Seq<char>>) -> bool {
    forall|i: int, j: int| 0 <= i < j < s.len() ==> s[i] != s[j]
}

/// The position before which `x` belongs in a sorted, duplicate-free list:
/// everything before it is strictly below `x`.
fn insertion_point(v: &Vec<String>, x: &String) -> (j: usize)
    requires
        sorted_strs(v.deep_view()),
    ensures
        j <= v.len(),
        forall|k: int| 0 <= k < j ==> lex_le(v.deep_view()[k], x@) && v.deep_view()[k] != x@,
        j < v.deep_view().len() ==> !(lex_le(v.deep_view()[j as int], x@) && v.deep_view()[
            j as int
        ] != x@),
{
    let mut j: usize = 0;
    while j < v.len()
        invariant
            j <= v.len(),
            v.deep_view().len() == v.len(),
            forall|k: int| 0 <= k < j ==> lex_le(v.deep_view()[k], x@) && v.deep_view()[k] != x@,
        decreases v.len() - j,
    {
        let le = str_le(v[j].as_str(), x.as_str());
        let eq = str_eq(v[j].as_str(), x.as_str());
        if !(le && !eq) {
            return j;
        }
        j = j + 1;
    }
    j
}

/// Insert a string into a sorted, duplicate-free list, keeping it sorted and
/// duplicate-free; a value already present is left alone.
pub fn insert_sorted(v: &mut Vec<String>, x: String)
    requires
        sorted_strs(old(v).deep_view()),
        distinct_strs(old(v).deep_view()),
    ensures
        sorted_strs(final(v).deep_view()),
        distinct_strs(final(v).deep_view()),
        forall|y: Seq<char>|
            final(v).deep_view().contains(y) <==> (old(v).deep_view().contains(y) || y == x@),
{
    let ghost olddv = v.deep_view();
    let j: usize = insertion_point(v, &x);
    if j < v.len() && str_eq(v[j].as_str(), x.as_str()) {
        // already present
        proof {
            assert(olddv[j as int] == x@);
            assert(olddv.contains(x@));
        }
        return ;
    }
    proof {
        // everything at or after j is strictly above x
        if j < olddv.len() {
            lemma_lex_total(olddv[j as int], x@);
            assert(lex_le(x@, olddv[j as int]));
            assert forall|k: int| j <= k < olddv.len() implies lex_le(x@, olddv[k]) && olddv[k]
                != x@ by {
                if k > j {
                    lemma_lex_trans(x@, olddv[j as int], olddv[k]);
                }
                if olddv[k] == x@ {
                    lemma_lex_antisym(x@, olddv[k]);
                    if k > j {
                        assert(lex_le(olddv[j as int], olddv[k]));
                        lemma_lex_antisym(olddv[j as int], olddv[k]);
                        assert(false);
                    } else {
                        assert(false);
                    }
                }
            }
        }
    }
    v.insert(j, x);
    proof {
        let dv = v.deep_view();
        assert(dv =~= olddv.insert(j as int, x@));
        assert forall|p: int, q: int| 0 <= p < q < dv.len() implies lex_le(dv[p], dv[q]) && dv[p]
            != dv[q] by {
            let oldp: int = if p < j { p } else { p - 1 };
            let oldq: int = if q < j { q } else { q - 1 };
            if p == j {
                assert(dv[p] == x@);
                assert(dv[q] == olddv[oldq]);
            } else if q == j {
                assert(dv[q] == x@);
                assert(dv[p] == olddv[oldp]);
            } else {
                assert(dv[p] == olddv[oldp]);
                assert(dv[q] == olddv[oldq]);
                if oldp == oldq {
                    assert(false);
                }
            }
        }
        assert forall|y: Seq<char>| dv.contains(y) implies (olddv.contains(y) || y == x@) by {
            let w = choose|w: int| 0 <= w < dv.len() && dv[w] == y;
            if w < j {
                assert(olddv[w] == y);
            } else if w > j {
                assert(olddv[w - 1] == y);
            }
        }
        assert forall|y: Seq<char>| olddv.contains(y) || y == x@ implies dv.contains(y) by {
            if olddv.contains(y) {
                let w = choose|w: int| 0 <= w < olddv.len() && olddv[w] == y;
                if w < j {
                    assert(dv[w] == y);
                } else {
                    assert(dv[w + 1] == y);
                }
            } else {
                assert(dv[j as int] == y);
            }
        }
    }
}

/// Sort a list of names and drop duplicates. The result is ordered, free of
/// repeats, and holds exactly the values of the input.
pub fn sort_dedup(input: &Vec<String>) -> (r: Vec<String>)
    ensures
        sorted_strs(r.deep_view()),
        distinct_strs(r.deep_view()),
        forall|y: Seq<char>| r.deep_view().contains(y) <==> input.deep_view().contains(y),
{
    let mut r: Vec<String> = Vec::new();
    let mut i: usize = 0;
    proof {
        assert(r.deep_view() =~= Seq::<Seq<char>>::empty());
    }
    while i < input.len()
        invariant
            i <= input.len(),
            input.deep_view().len() == input.len(),
            sorted_strs(r.deep_view()),
            distinct_strs(r.deep_view()),
            forall|y: Seq<char>|
                r.deep_view().contains(y) <==> input.deep_view().take(i as int).contains(y),
        decreases input.len() - i,
    {
        let ghost before = r.deep_view();
        let item = clone_string(&input[i]);
        insert_sorted(&mut r, item);
        proof {
            let pre = input.deep_view().take(i as int);
            let pre1 = input.deep_view().take(i as int + 1);
            assert(pre1.drop_last() =~= pre);
            assert(pre1.last() == input.deep_view()[i as int]);
            assert forall|y: Seq<char>| r.deep_view().contains(y) implies pre1.contains(y) by {
                if before.contains(y) {
                    let w = choose|w: int| 0 <= w < pre.len() && pre[w] == y;
                    assert(pre1[w] == y);
                } else {
                    assert(pre1[i as int] == y);
                }
            }
            assert forall|y: Seq<char>| pre1.contains(y) implies r.deep_view().contains(y) by {
                let w = choose|w: int| 0 <= w < pre1.len() && pre1[w] == y;
                if w < i {
                    assert(pre[w] == y);
                }
            }
        }
        i = i + 1;
    }
    proof {
        assert(input.deep_view().take(input.len() as int) =~= input.deep_view());
    }
    r
}

/// Copy a string, keeping its characters.
pub fn clone_string(s: &String) -> (r: String)
    ensures
        r@ == s@,
{
    s.clone()
}

} // verus!
