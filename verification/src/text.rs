//! Text helpers: lexicographic order on strings, character search and
//! membership tests over lists of names.

use vstd::prelude::*;
use vstd::string::*;

verus! {

/// The three outcomes of comparing two values.
#[derive(Clone, Copy, Debug, PartialEq, Eq, Structural)]
pub enum Comparison {
    Less,
    Equal,
    Greater,
}

/// Strict lexicographic order on character sequences, characters compared
/// by code point (the order of `str` in Rust: UTF-8 keeps code point order).
pub open spec fn lex_lt(a: Seq<char>, b: Seq<char>) -> bool
    decreases a.len(),
{
    if a.len() == 0 {
        b.len() > 0
    } else if b.len() == 0 {
        false
    } else if a[0] != b[0] {
        (a[0] as int) < (b[0] as int)
    } else {
        lex_lt(a.drop_first(), b.drop_first())
    }
}

/// Non-strict lexicographic order.
pub open spec fn lex_le(a: Seq<char>, b: Seq<char>) -> bool {
    !lex_lt(b, a)
}

/// The comparison of two character sequences in lexicographic order.
pub open spec fn lex_comparison(a: Seq<char>, b: Seq<char>) -> Comparison {
    if lex_lt(a, b) {
        Comparison::Less
    } else if a == b {
        Comparison::Equal
    } else {
        Comparison::Greater
    }
}

pub proof fn lemma_lex_irreflexive(a: Seq<char>)
    ensures
        !lex_lt(a, a),
    decreases a.len(),
{
    if a.len() > 0 {
        lemma_lex_irreflexive(a.drop_first());
    }
}

pub proof fn lemma_lex_transitive(a: Seq<char>, b: Seq<char>, c: Seq<char>)
    requires
        lex_lt(a, b),
        lex_lt(b, c),
    ensures
        lex_lt(a, c),
    decreases a.len(),
{
    if a.len() > 0 && b.len() > 0 && c.len() > 0 {
        if a[0] == b[0] && b[0] == c[0] {
            lemma_lex_transitive(a.drop_first(), b.drop_first(), c.drop_first());
        }
    }
}

pub proof fn lemma_lex_trichotomy(a: Seq<char>, b: Seq<char>)
    ensures
        lex_lt(a, b) || lex_lt(b, a) || a == b,
        !(lex_lt(a, b) && lex_lt(b, a)),
    decreases a.len(),
{
    if a.len() == 0 || b.len() == 0 {
        if a.len() == 0 && b.len() == 0 {
            assert(a =~= b);
        }
    } else if a[0] != b[0] {
        assert((a[0] as int) != (b[0] as int));
    } else {
        lemma_lex_trichotomy(a.drop_first(), b.drop_first());
        if a.drop_first() == b.drop_first() {
            lemma_same_head_tail(a, b);
        }
    }
}

proof fn lemma_same_head_tail(a: Seq<char>, b: Seq<char>)
    requires
        a.len() > 0,
        b.len() > 0,
        a[0] == b[0],
        a.drop_first() == b.drop_first(),
    ensures
        a == b,
{
    assert(a.len() == a.drop_first().len() + 1);
    assert(b.len() == b.drop_first().len() + 1);
    assert forall|i: int| 0 <= i < a.len() implies a[i] == b[i] by {
        if i > 0 {
            assert(a[i] == a.drop_first()[i - 1]);
            assert(b[i] == b.drop_first()[i - 1]);
        }
    }
    assert(a =~= b);
}

/// `lex_le` is a total preorder whose ties are equal sequences.
pub proof fn lemma_lex_le_total(a: Seq<char>, b: Seq<char>, c: Seq<char>)
    ensures
        lex_le(a, a),
        lex_le(a, b) || lex_le(b, a),
        lex_le(a, b) && lex_le(b, a) ==> a == b,
        lex_le(a, b) && lex_le(b, c) ==> lex_le(a, c),
        lex_lt(a, b) && lex_le(b, c) ==> lex_lt(a, c),
        lex_le(a, b) && lex_lt(b, c) ==> lex_lt(a, c),
{
    lemma_lex_irreflexive(a);
    lemma_lex_trichotomy(a, b);
    lemma_lex_trichotomy(b, c);
    lemma_lex_trichotomy(a, c);
    if lex_lt(c, a) && lex_lt(a, b) {
        lemma_lex_transitive(c, a, b);
    }
    if lex_lt(b, c) && lex_lt(c, a) {
        lemma_lex_transitive(b, c, a);
    }
    if lex_lt(a, b) && lex_lt(b, c) {
        lemma_lex_transitive(a, b, c);
    }
}

/// Compares two strings in lexicographic order, as `str`'s `Ord` does.
pub fn lex_compare(a: &str, b: &str) -> (res: Comparison)
    ensures
        res == lex_comparison(a@, b@),
{
    let la = a.unicode_len();
    let lb = b.unicode_len();
    let mut i: usize = 0;
    assert(a@.skip(0) =~= a@);
    assert(b@.skip(0) =~= b@);
    while i < la && i < lb
        invariant
            la == a@.len(),
            lb == b@.len(),
            i <= la,
            i <= lb,
            a@.subrange(0, i as int) == b@.subrange(0, i as int),
            lex_comparison(a@, b@) == lex_comparison(a@.skip(i as int), b@.skip(i as int)),
        decreases la - i,
    {
        let ca = a.get_char(i);
        let cb = b.get_char(i);
        let ghost sa = a@.skip(i as int);
        let ghost sb = b@.skip(i as int);
        assert(sa[0] == ca && sb[0] == cb);
        if (ca as u32) < (cb as u32) {
            proof {
                assert(lex_lt(sa, sb));
            }
            return Comparison::Less;
        }
        if (cb as u32) < (ca as u32) {
            proof {
                assert(lex_lt(sb, sa));
                lemma_lex_trichotomy(sa, sb);
                if sa == sb {
                    lemma_lex_irreflexive(sa);
                }
            }
            return Comparison::Greater;
        }
        proof {
            assert((ca as u32) == (cb as u32));
            assert(ca == cb);
            assert(sa.drop_first() =~= a@.skip(i + 1));
            assert(sb.drop_first() =~= b@.skip(i + 1));
            assert(lex_lt(sa, sb) == lex_lt(sa.drop_first(), sb.drop_first()));
            assert(lex_lt(sb, sa) == lex_lt(sb.drop_first(), sa.drop_first()));
            if sa.drop_first() == sb.drop_first() {
                lemma_same_head_tail(sa, sb);
            }
            if sa == sb {
                assert(sa.drop_first() =~= sb.drop_first());
            }
            assert(a@.subrange(0, i + 1) =~= a@.subrange(0, i as int).push(ca));
            assert(b@.subrange(0, i + 1) =~= b@.subrange(0, i as int).push(cb));
        }
        i = i + 1;
    }
    proof {
        let sa = a@.skip(i as int);
        let sb = b@.skip(i as int);
        if i == la && i == lb {
            assert(a@ =~= a@.subrange(0, i as int));
            assert(b@ =~= b@.subrange(0, i as int));
            assert(sa.len() == 0 && sb.len() == 0);
            assert(sa =~= sb);
        } else if i == la {
            assert(sa.len() == 0 && sb.len() > 0);
            assert(sa != sb);
        } else {
            assert(sb.len() == 0 && sa.len() > 0);
            assert(sa != sb);
        }
    }
    if i == la && i == lb {
        Comparison::Equal
    } else if i == la {
        Comparison::Less
    } else {
        Comparison::Greater
    }
}

/// Whether the string holds the character.
pub fn has_char(s: &str, c: char) -> (res: bool)
    ensures
        res == s@.contains(c),
{
    let n = s.unicode_len();
    let mut i: usize = 0;
    while i < n
        invariant
            n == s@.len(),
            i <= n,
            forall|j: int| 0 <= j < i ==> s@[j] != c,
        decreases n - i,
    {
        if s.get_char(i) == c {
            assert(s@[i as int] == c);
            return true;
        }
        i = i + 1;
    }
    false
}

/// The character sequences of a list of strings.
pub open spec fn names(v: Seq<String>) -> Seq<Seq<char>> {
    v.map_values(|s: String| s@)
}

pub proof fn lemma_names_push(v: Seq<String>, x: String)
    ensures
        names(v.push(x)) == names(v).push(x@),
{
    assert(names(v.push(x)) =~= names(v).push(x@));
}

/// A copy of a list of strings.
pub fn copy_strings(v: &Vec<String>) -> (res: Vec<String>)
    ensures
        names(res@) == names(v@),
{
    let mut res: Vec<String> = Vec::new();
    let mut i: usize = 0;
    while i < v.len()
        invariant
            i <= v.len(),
            names(res@) == names(v@.take(i as int)),
        decreases v.len() - i,
    {
        let c = v[i].clone();
        proof {
            assert(v@.take(i + 1) == v@.take(i as int).push(v@[i as int]));
            lemma_names_push(res@, c);
            lemma_names_push(v@.take(i as int), v@[i as int]);
        }
        res.push(c);
        i = i + 1;
    }
    proof {
        assert(v@.take(i as int) =~= v@);
    }
    res
}

/// Whether a list of strings holds one equal to `s`.
pub fn contains_name(v: &Vec<String>, s: &String) -> (res: bool)
    ensures
        res == names(v@).contains(s@),
{
    let mut i: usize = 0;
    while i < v.len()
        invariant
            i <= v.len(),
            forall|j: int| 0 <= j < i ==> v@[j]@ != s@,
        decreases v.len() - i,
    {
        if v[i] == *s {
            assert(names(v@)[i as int] == s@);
            return true;
        }
        i = i + 1;
    }
    proof {
        if names(v@).contains(s@) {
            let j = choose|j: int| 0 <= j < names(v@).len() && names(v@)[j] == s@;
            assert(v@[j]@ == s@);
        }
    }
    false
}

/// A new string made of `prefix` followed by `s`.
pub fn prefixed(prefix: &str, s: &str) -> (res: String)
    ensures
        res@ == prefix@ + s@,
{
    let mut r = String::from_str(prefix);
    r.append(s);
    r
}

} // verus!
