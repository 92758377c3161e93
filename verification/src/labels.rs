//! Identifying key strings for evaluators and their queries.
//!
//! An evaluator's key is `<label>_lookup_<index>`, and each of its queries
//! appends a fixed suffix naming the commitment it opens. Downstream
//! consumers deduplicate queries by these strings, so keys of evaluators
//! built with different indices, with or without their suffixes, must never
//! collide; the lemmas at the bottom of this module prove that.

use vstd::prelude::*;
use vstd::string::StringExecFns;

verus! {

/// The decimal digit character for `d`, for `d` below ten.
pub open spec fn spec_digit(d: nat) -> char {
    if d == 0 {
        '0'
    } else if d == 1 {
        '1'
    } else if d == 2 {
        '2'
    } else if d == 3 {
        '3'
    } else if d == 4 {
        '4'
    } else if d == 5 {
        '5'
    } else if d == 6 {
        '6'
    } else if d == 7 {
        '7'
    } else if d == 8 {
        '8'
    } else {
        '9'
    }
}

/// The decimal numeral of `n`, most significant digit first, without
/// leading zeros (a single `'0'` for zero).
pub open spec fn spec_decimal(n: nat) -> Seq<char>
    decreases n,
{
    if n < 10 {
        seq![spec_digit(n)]
    } else {
        spec_decimal(n / 10) + seq![spec_digit(n % 10)]
    }
}

/// Whether `c` is a decimal digit character.
pub open spec fn is_decimal_digit(c: char) -> bool {
    ||| c == '0'
    ||| c == '1'
    ||| c == '2'
    ||| c == '3'
    ||| c == '4'
    ||| c == '5'
    ||| c == '6'
    ||| c == '7'
    ||| c == '8'
    ||| c == '9'
}

/// The identifying key of the lookup argument at `index` under `label`.
pub open spec fn spec_lookup_key(label: Seq<char>, index: nat) -> Seq<char> {
    label + "_lookup_"@ + spec_decimal(index)
}

fn push_digit(s: &mut String, d: u64)
    requires
        d < 10,
    ensures
        final(s)@ == old(s)@ + seq![spec_digit(d as nat)],
{
    if d == 0 {
        s.append("0");
    } else if d == 1 {
        s.append("1");
    } else if d == 2 {
        s.append("2");
    } else if d == 3 {
        s.append("3");
    } else if d == 4 {
        s.append("4");
    } else if d == 5 {
        s.append("5");
    } else if d == 6 {
        s.append("6");
    } else if d == 7 {
        s.append("7");
    } else if d == 8 {
        s.append("8");
    } else {
        s.append("9");
    }
    proof {
        reveal_strlit("0");
        reveal_strlit("1");
        reveal_strlit("2");
        reveal_strlit("3");
        reveal_strlit("4");
        reveal_strlit("5");
        reveal_strlit("6");
        reveal_strlit("7");
        reveal_strlit("8");
        reveal_strlit("9");
        assert(s@ =~= old(s)@ + seq![spec_digit(d as nat)]);
    }
}

/// Appends the decimal numeral of `n` to `s`.
pub fn push_decimal(s: &mut String, n: u64)
    ensures
        final(s)@ == old(s)@ + spec_decimal(n as nat),
    decreases n,
{
    if n >= 10 {
        push_decimal(s, n / 10);
    }
    push_digit(s, n % 10);
    proof {
        assert(s@ =~= old(s)@ + spec_decimal(n as nat));
    }
}

/// Formats the identifying key of the lookup argument at `index` under
/// `label`: the label, the text `_lookup_`, and the index in decimal.
pub fn lookup_key(label: &str, index: u64) -> (r: String)
    ensures
        r@ == spec_lookup_key(label@, index as nat),
{
    let mut s = String::from_str(label);
    s.append("_lookup_");
    push_decimal(&mut s, index);
    proof {
        assert(s@ =~= spec_lookup_key(label@, index as nat));
    }
    s
}

/// A decimal numeral is never empty, and has a second digit exactly when
/// its value is at least ten.
proof fn lemma_spec_decimal_len(n: nat)
    ensures
        n < 10 ==> spec_decimal(n).len() == 1,
        n >= 10 ==> spec_decimal(n).len() >= 2,
    decreases n,
{
    if n >= 10 {
        lemma_spec_decimal_len(n / 10);
    }
}

/// Every character of a decimal numeral is a digit.
proof fn lemma_spec_decimal_digits(n: nat)
    ensures
        forall|k: int|
            0 <= k < spec_decimal(n).len() ==> is_decimal_digit(#[trigger] spec_decimal(n)[k]),
    decreases n,
{
    if n < 10 {
        assert(spec_decimal(n)[0] == spec_digit(n));
    } else {
        lemma_spec_decimal_digits(n / 10);
        let d = spec_decimal(n / 10);
        assert forall|k: int| 0 <= k < spec_decimal(n).len() implies is_decimal_digit(
            #[trigger] spec_decimal(n)[k],
        ) by {
            if k < d.len() {
                assert(spec_decimal(n)[k] == d[k]);
            } else {
                assert(spec_decimal(n)[k] == spec_digit(n % 10));
            }
        }
    }
}

/// Distinct digits have distinct digit characters.
proof fn lemma_spec_digit_injective(a: nat, b: nat)
    requires
        a < 10,
        b < 10,
        spec_digit(a) == spec_digit(b),
    ensures
        a == b,
{
}

/// Distinct values have distinct decimal numerals.
proof fn lemma_spec_decimal_injective(a: nat, b: nat)
    requires
        spec_decimal(a) == spec_decimal(b),
    ensures
        a == b,
    decreases a,
{
    lemma_spec_decimal_len(a);
    lemma_spec_decimal_len(b);
    if a < 10 && b < 10 {
        assert(spec_decimal(a)[0] == spec_decimal(b)[0]);
        assert(spec_decimal(a)[0] == spec_digit(a));
        assert(spec_decimal(b)[0] == spec_digit(b));
        lemma_spec_digit_injective(a, b);
    } else if a >= 10 && b >= 10 {
        let da = spec_decimal(a);
        let db = spec_decimal(b);
        assert(da == spec_decimal(a / 10) + seq![spec_digit(a % 10)]);
        assert(db == spec_decimal(b / 10) + seq![spec_digit(b % 10)]);
        assert(da[da.len() - 1] == spec_digit(a % 10));
        assert(db[db.len() - 1] == spec_digit(b % 10));
        lemma_spec_digit_injective(a % 10, b % 10);
        assert(a % 10 == b % 10);
        assert(spec_decimal(a / 10) =~= da.subrange(0, da.len() - 1));
        assert(spec_decimal(b / 10) =~= db.subrange(0, db.len() - 1));
        lemma_spec_decimal_injective(a / 10, b / 10);
        assert(a == 10 * (a / 10) + a % 10);
        assert(b == 10 * (b / 10) + b % 10);
    }
}

/// Stripping a shared prefix off equal sequences leaves equal sequences.
proof fn lemma_prepend_cancel(p: Seq<char>, a: Seq<char>, b: Seq<char>)
    requires
        p + a == p + b,
    ensures
        a == b,
{
    assert(a =~= (p + a).subrange(p.len() as int, (p + a).len() as int));
    assert(b =~= (p + b).subrange(p.len() as int, (p + b).len() as int));
}

/// A numeral followed by a suffix that does not start with a digit
/// determines both the numeral and the suffix.
proof fn lemma_numeral_suffix_cancel(a: nat, b: nat, s1: Seq<char>, s2: Seq<char>)
    requires
        spec_decimal(a) + s1 == spec_decimal(b) + s2,
        s1.len() >= 1,
        !is_decimal_digit(s1[0]),
        s2.len() >= 1,
        !is_decimal_digit(s2[0]),
    ensures
        a == b,
        s1 == s2,
{
    lemma_spec_decimal_digits(a);
    lemma_spec_decimal_digits(b);
    let da = spec_decimal(a);
    let db = spec_decimal(b);
    if da.len() < db.len() {
        assert((da + s1)[da.len() as int] == s1[0]);
        assert((db + s2)[da.len() as int] == db[da.len() as int]);
        assert(is_decimal_digit(db[da.len() as int]));
        assert(false);
    }
    if db.len() < da.len() {
        assert((db + s2)[db.len() as int] == s2[0]);
        assert((da + s1)[db.len() as int] == da[db.len() as int]);
        assert(is_decimal_digit(da[db.len() as int]));
        assert(false);
    }
    assert(da =~= (da + s1).subrange(0, da.len() as int));
    assert(db =~= (db + s2).subrange(0, db.len() as int));
    lemma_spec_decimal_injective(a, b);
    lemma_prepend_cancel(da, s1, s2);
}

/// Law: evaluators built with different indices under the same label have
/// different identifying keys.
pub proof fn lemma_lookup_key_injective(label: Seq<char>, i: nat, j: nat)
    requires
        i != j,
    ensures
        spec_lookup_key(label, i) != spec_lookup_key(label, j),
{
    if spec_lookup_key(label, i) == spec_lookup_key(label, j) {
        lemma_prepend_cancel(label + "_lookup_"@, spec_decimal(i), spec_decimal(j));
        lemma_spec_decimal_injective(i, j);
    }
}

/// Law: the query keys of evaluators built with different indices under the
/// same label never collide, whichever suffixes the two queries carry, as
/// long as neither suffix starts with a digit.
pub proof fn lemma_query_key_injective(
    label: Seq<char>,
    i: nat,
    j: nat,
    s1: Seq<char>,
    s2: Seq<char>,
)
    requires
        i != j,
        s1.len() >= 1,
        !is_decimal_digit(s1[0]),
        s2.len() >= 1,
        !is_decimal_digit(s2[0]),
    ensures
        spec_lookup_key(label, i) + s1 != spec_lookup_key(label, j) + s2,
{
    let p = label + "_lookup_"@;
    if spec_lookup_key(label, i) + s1 == spec_lookup_key(label, j) + s2 {
        assert(p + (spec_decimal(i) + s1) =~= spec_lookup_key(label, i) + s1);
        assert(p + (spec_decimal(j) + s2) =~= spec_lookup_key(label, j) + s2);
        lemma_prepend_cancel(p, spec_decimal(i) + s1, spec_decimal(j) + s2);
        lemma_numeral_suffix_cancel(i, j, s1, s2);
    }
}

} // verus!
