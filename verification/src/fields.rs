//! Removal of field-code placeholders from a desktop entry's command line.
//!
//! A command line may carry placeholder tokens such as `%f` or `%U` that a
//! launcher would substitute at launch time. This library only strips them:
//! each recognized two-character token is removed by plain substring
//! replacement, one token after the other, in a fixed order. The replacement
//! is deliberately not escape-aware: a `%f` inside an escaped `%%f` is
//! removed all the same.

use vstd::prelude::*;

verus! {

/// The second character of each recognized field-code token, in the order the
/// tokens are replaced; every token starts with `%`, and the final `%%` is
/// replaced last.
pub open spec fn field_code_chars() -> Seq<char> {
    seq!['f', 'F', 'u', 'U', 'd', 'D', 'n', 'N', 'i', 'c', 'k', 'v', 'm', '%']
}

/// Removes every occurrence of the two-character pattern `[a, b]` from `t`,
/// scanning left to right without overlap, as plain substring replacement by
/// the empty string does.
pub open spec fn remove_pat(t: Seq<char>, a: char, b: char) -> Seq<char>
    decreases t.len(),
{
    if t.len() >= 2 && t[0] == a && t[1] == b {
        remove_pat(t.skip(2), a, b)
    } else if t.len() >= 1 {
        seq![t[0]] + remove_pat(t.skip(1), a, b)
    } else {
        t
    }
}

/// Applies `remove_pat` for each field code from position `i` of
/// `field_code_chars()` on, in order.
pub open spec fn strip_from(t: Seq<char>, i: int) -> Seq<char>
    decreases field_code_chars().len() - i,
{
    if 0 <= i < field_code_chars().len() {
        strip_from(remove_pat(t, '%', field_code_chars()[i]), i + 1)
    } else {
        t
    }
}

/// The command line `t` with every recognized field-code token removed.
pub open spec fn strip_spec(t: Seq<char>) -> Seq<char> {
    strip_from(t, 0)
}

/// Holds when no field-code token occurs anywhere in `t`.
pub open spec fn no_field_codes(t: Seq<char>) -> bool {
    forall|i: int|
        0 <= i < t.len() - 1 ==> !(t[i] == '%' && field_code_chars().contains(#[trigger] t[i + 1]))
}

/// Removes every occurrence of the two-character pattern `[a, b]` from `s`.
pub fn remove_occurrences(s: &str, a: char, b: char) -> (r: String)
    ensures
        r@ == remove_pat(s@, a, b),
{
    let n = s.unicode_len();
    let mut out = String::new();
    let mut i: usize = 0;
    proof {
        assert(s@.skip(0) =~= s@);
        assert(Seq::<char>::empty() + remove_pat(s@, a, b) =~= remove_pat(s@, a, b));
    }
    while i < n
        invariant
            n == s@.len(),
            i <= n,
            remove_pat(s@, a, b) == out@ + remove_pat(s@.skip(i as int), a, b),
        decreases n - i,
    {
        let rest = Ghost(s@.skip(i as int));
        if i + 1 < n && s.get_char(i) == a && s.get_char(i + 1) == b {
            proof {
                assert(rest@[0] == a && rest@[1] == b);
                assert(rest@.skip(2) =~= s@.skip(i + 2));
            }
            i = i + 2;
        } else {
            let c = s.substring_char(i, i + 1);
            out.append(c);
            proof {
                assert(rest@[0] == s@[i as int]);
                assert(seq![rest@[0]] =~= s@.subrange(i as int, i + 1));
                assert(rest@.skip(1) =~= s@.skip(i + 1));
            }
            i = i + 1;
        }
    }
    proof {
        assert(s@.skip(n as int) =~= Seq::<char>::empty());
        assert(out@ + Seq::<char>::empty() =~= out@);
    }
    out
}

/// Strips every recognized field-code token from `s`, token by token in the
/// fixed replacement order.
pub fn strip_field_codes(s: &str) -> (r: String)
    ensures
        r@ == strip_spec(s@),
{
    let codes: Vec<char> = vec!['f', 'F', 'u', 'U', 'd', 'D', 'n', 'N', 'i', 'c', 'k', 'v', 'm', '%'];
    proof {
        assert(codes@ =~= field_code_chars());
    }
    let mut cur: String = s.to_owned();
    let mut i: usize = 0;
    while i < 14
        invariant
            codes@ == field_code_chars(),
            i <= 14,
            strip_spec(s@) == strip_from(cur@, i as int),
        decreases 14 - i,
    {
        cur = remove_occurrences(cur.as_str(), '%', codes[i]);
        i = i + 1;
    }
    cur
}

/// If the pattern `[a, b]` occurs nowhere in `t`, removing it leaves `t`
/// unchanged.
proof fn lemma_remove_pat_absent(t: Seq<char>, a: char, b: char)
    requires
        forall|i: int| 0 <= i < t.len() - 1 ==> !(#[trigger] t[i] == a && t[i + 1] == b),
    ensures
        remove_pat(t, a, b) == t,
    decreases t.len(),
{
    if t.len() >= 1 {
        assert(!(t.len() >= 2 && t[0] == a && t[1] == b));
        let rest = t.skip(1);
        assert forall|i: int| 0 <= i < rest.len() - 1 implies !(#[trigger] rest[i] == a && rest[i + 1] == b) by {
            assert(rest[i] == t[i + 1]);
            assert(rest[i + 1] == t[i + 2]);
        }
        lemma_remove_pat_absent(rest, a, b);
        assert(seq![t[0]] + rest =~= t);
    }
}

/// Stripping is idempotent on an already-stripped command line: on a string
/// with no remaining field-code tokens, field-code removal is the identity.
pub proof fn lemma_strip_stripped_identity(t: Seq<char>)
    requires
        no_field_codes(t),
    ensures
        strip_spec(t) == t,
{
    lemma_strip_from_identity(t, 0);
}

/// On a string with no field-code tokens, every tail of the replacement chain
/// is the identity.
proof fn lemma_strip_from_identity(t: Seq<char>, i: int)
    requires
        no_field_codes(t),
        0 <= i,
    ensures
        strip_from(t, i) == t,
    decreases field_code_chars().len() - i,
{
    if i < field_code_chars().len() {
        let c = field_code_chars()[i];
        assert forall|k: int| 0 <= k < t.len() - 1 implies !(#[trigger] t[k] == '%' && t[k + 1] == c) by {
            assert(field_code_chars().contains(t[k + 1]) || t[k + 1] != c);
        }
        lemma_remove_pat_absent(t, '%', c);
        lemma_strip_from_identity(t, i + 1);
    }
}

} // verus!
