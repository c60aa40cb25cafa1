//! Ordinal (code-point) ordering of method-name strings: the order in which
//! the allow-list is kept sorted, together with a verified three-way string
//! comparison.

use vstd::prelude::*;

verus! {

use vstd::string::StrSliceExecFns;

/// Outcome of comparing two strings in ordinal order.
#[derive(Clone, Copy, Debug, PartialEq, Eq, Structural)]
pub enum StrOrd {
    Less,
    Equal,
    Greater,
}

/// Strict lexicographic order on character sequences by code point.
pub open spec fn lex_lt(a: Seq<char>, b: Seq<char>) -> bool
    decreases a.len(),
{
    if b.len() == 0 {
        false
    } else if a.len() == 0 {
        true
    } else if a[0] == b[0] {
        lex_lt(a.drop_first(), b.drop_first())
    } else {
        a[0] < b[0]
    }
}

/// Reflexive closure of `lex_lt`.
pub open spec fn lex_le(a: Seq<char>, b: Seq<char>) -> bool {
    lex_lt(a, b) || a == b
}

pub proof fn lemma_lex_lt_irreflexive(a: Seq<char>)
    ensures
        !lex_lt(a, a),
    decreases a.len(),
{
    if a.len() > 0 {
        lemma_lex_lt_irreflexive(a.drop_first());
    }
}

pub proof fn lemma_lex_lt_asymmetric(a: Seq<char>, b: Seq<char>)
    requires
        lex_lt(a, b),
    ensures
        !lex_lt(b, a),
    decreases a.len(),
{
    if a.len() > 0 && b.len() > 0 && a[0] == b[0] {
        lemma_lex_lt_asymmetric(a.drop_first(), b.drop_first());
    }
}

/// Any two character sequences are ordered or equal.
pub proof fn lemma_lex_lt_trichotomy(a: Seq<char>, b: Seq<char>)
    ensures
        lex_lt(a, b) || lex_lt(b, a) || a == b,
    decreases a.len(),
{
    if a.len() == 0 && b.len() == 0 {
        assert(a =~= b);
    } else if a.len() == 0 {
        assert(lex_lt(a, b));
    } else if b.len() == 0 {
        assert(lex_lt(b, a));
    } else if a[0] != b[0] {
        assert(lex_lt(a, b) || lex_lt(b, a));
    } else {
        lemma_lex_lt_trichotomy(a.drop_first(), b.drop_first());
        if lex_lt(a.drop_first(), b.drop_first()) {
            assert(lex_lt(a, b));
        } else if lex_lt(b.drop_first(), a.drop_first()) {
            assert(lex_lt(b, a));
        } else if a.drop_first() == b.drop_first() {
            assert(a.drop_first().len() == b.drop_first().len());
            assert(a.len() == b.len());
            assert forall|i: int| 0 <= i < a.len() implies a[i] == b[i] by {
                if i > 0 {
                    assert(a.drop_first()[i - 1] == b.drop_first()[i - 1]);
                    assert(a[i] == a.drop_first()[i - 1]);
                    assert(b[i] == b.drop_first()[i - 1]);
                }
            }
            assert(a =~= b);
        }
    }
}

pub proof fn lemma_lex_lt_transitive(a: Seq<char>, b: Seq<char>, c: Seq<char>)
    requires
        lex_lt(a, b),
        lex_lt(b, c),
    ensures
        lex_lt(a, c),
    decreases a.len(),
{
    if a.len() > 0 && b.len() > 0 && c.len() > 0 && a[0] == b[0] && b[0] == c[0] {
        lemma_lex_lt_transitive(a.drop_first(), b.drop_first(), c.drop_first());
    }
}

/// A strict bound followed by a non-strict one is still strict.
pub proof fn lemma_lex_lt_le_transitive(a: Seq<char>, b: Seq<char>, c: Seq<char>)
    requires
        lex_lt(a, b),
        lex_le(b, c),
    ensures
        lex_lt(a, c),
{
    if b != c {
        lemma_lex_lt_transitive(a, b, c);
    }
}

/// A non-strict bound followed by a strict one is still strict.
pub proof fn lemma_lex_le_lt_transitive(a: Seq<char>, b: Seq<char>, c: Seq<char>)
    requires
        lex_le(a, b),
        lex_lt(b, c),
    ensures
        lex_lt(a, c),
{
    if a != b {
        lemma_lex_lt_transitive(a, b, c);
    }
}

pub proof fn lemma_lex_le_transitive(a: Seq<char>, b: Seq<char>, c: Seq<char>)
    requires
        lex_le(a, b),
        lex_le(b, c),
    ensures
        lex_le(a, c),
{
    if a != b && b != c {
        lemma_lex_lt_transitive(a, b, c);
    }
}

/// If two sequences agree strictly below `i` and disagree upward at `i`,
/// the first is lexicographically smaller.
proof fn lemma_lt_at_index(a: Seq<char>, b: Seq<char>, i: int)
    requires
        0 <= i < a.len(),
        i < b.len(),
        forall|j: int| 0 <= j < i ==> a[j] == b[j],
        a[i] < b[i],
    ensures
        lex_lt(a, b),
    decreases i,
{
    if i == 0 {
        assert(a[0] != b[0]);
    } else {
        assert(a[0] == b[0]);
        lemma_lt_at_index(a.drop_first(), b.drop_first(), i - 1);
    }
}

/// A strict prefix is lexicographically smaller.
proof fn lemma_lt_of_proper_prefix(a: Seq<char>, b: Seq<char>)
    requires
        a.len() < b.len(),
        forall|j: int| 0 <= j < a.len() ==> a[j] == b[j],
    ensures
        lex_lt(a, b),
    decreases a.len(),
{
    if a.len() > 0 {
        lemma_lt_of_proper_prefix(a.drop_first(), b.drop_first());
    }
}

/// Three-way comparison of two strings in ordinal order.
pub fn cmp_str(a: &str, b: &str) -> (r: StrOrd)
    ensures
        (r is Equal) <==> a@ == b@,
        (r is Less) <==> lex_lt(a@, b@),
        (r is Greater) <==> lex_lt(b@, a@),
{
    let la = a.unicode_len();
    let lb = b.unicode_len();
    let n = if la < lb {
        la
    } else {
        lb
    };
    let mut i: usize = 0;
    while i < n
        invariant
            la == a@.len(),
            lb == b@.len(),
            n == if la < lb {
                la
            } else {
                lb
            },
            i <= n,
            forall|j: int| 0 <= j < i ==> a@[j] == b@[j],
        decreases n - i,
    {
        let ca = a.get_char(i);
        let cb = b.get_char(i);
        if ca < cb {
            proof {
                lemma_lt_at_index(a@, b@, i as int);
                lemma_lex_lt_asymmetric(a@, b@);
                lemma_lex_lt_irreflexive(a@);
            }
            return StrOrd::Less;
        }
        if cb < ca {
            proof {
                lemma_lt_at_index(b@, a@, i as int);
                lemma_lex_lt_asymmetric(b@, a@);
                lemma_lex_lt_irreflexive(b@);
            }
            return StrOrd::Greater;
        }
        i = i + 1;
    }
    if la == lb {
        proof {
            assert(a@ =~= b@);
            lemma_lex_lt_irreflexive(a@);
        }
        StrOrd::Equal
    } else if la < lb {
        proof {
            lemma_lt_of_proper_prefix(a@, b@);
            lemma_lex_lt_asymmetric(a@, b@);
            lemma_lex_lt_irreflexive(a@);
        }
        StrOrd::Less
    } else {
        proof {
            lemma_lt_of_proper_prefix(b@, a@);
            lemma_lex_lt_asymmetric(b@, a@);
            lemma_lex_lt_irreflexive(b@);
        }
        StrOrd::Greater
    }
}

} // verus!
