//! The label under which a binding's hotkey identifier is requested from the
//! operating system: a fixed prefix and the binding's index in decimal.

use vstd::prelude::*;
use vstd::string::StringExecFns;

verus! {

/// The character of a decimal digit.
pub open spec fn digit_char(d: nat) -> char
    recommends
        d < 10,
{
    if d == 0 {
        '0'
    } else if d == 1 {
        '1'
    } else if d == 2 {
        '2'
    } else if d == 3 {
        '3'
    } else if d == 4 {
        '4'
    } else if d == 5 {
        '5'
    } else if d == 6 {
        '6'
    } else if d == 7 {
        '7'
    } else if d == 8 {
        '8'
    } else {
        '9'
    }
}

/// `n` in decimal, most significant digit first, without leading zeros.
pub open spec fn decimal(n: nat) -> Seq<char>
    decreases n,
{
    if n < 10 {
        seq![digit_char(n)]
    } else {
        decimal(n / 10).push(digit_char(n % 10))
    }
}

/// What every label starts with.
pub open spec fn label_prefix() -> Seq<char> {
    "winmgr_bind_"@
}

/// The label of the binding at `index`.
pub open spec fn spec_label(index: nat) -> Seq<char> {
    label_prefix() + decimal(index)
}

fn digit_str(d: usize) -> (r: &'static str)
    requires
        d < 10,
    ensures
        r@ == seq![digit_char(d as nat)],
{
    proof {
        reveal_strlit("0");
        reveal_strlit("1");
        reveal_strlit("2");
        reveal_strlit("3");
        reveal_strlit("4");
        reveal_strlit("5");
        reveal_strlit("6");
        reveal_strlit("7");
        reveal_strlit("8");
        reveal_strlit("9");
    }
    let r = if d == 0 {
        "0"
    } else if d == 1 {
        "1"
    } else if d == 2 {
        "2"
    } else if d == 3 {
        "3"
    } else if d == 4 {
        "4"
    } else if d == 5 {
        "5"
    } else if d == 6 {
        "6"
    } else if d == 7 {
        "7"
    } else if d == 8 {
        "8"
    } else {
        "9"
    };
    assert(r@ =~= seq![digit_char(d as nat)]);
    r
}

fn push_decimal(out: &mut String, n: usize)
    ensures
        final(out)@ == old(out)@ + decimal(n as nat),
    decreases n,
{
    if n >= 10 {
        push_decimal(out, n / 10);
    }
    out.append(digit_str(n % 10));
    assert(final(out)@ =~= old(out)@ + decimal(n as nat));
}

/// The label of the binding at `index`.
pub fn label(index: usize) -> (r: String)
    ensures
        r@ == spec_label(index as nat),
{
    let mut out = String::from_str("winmgr_bind_");
    push_decimal(&mut out, index);
    out
}

/// A number's decimal form has at least one digit.
pub proof fn lemma_decimal_not_empty(n: nat)
    ensures
        decimal(n).len() >= 1,
    decreases n,
{
    if n >= 10 {
        lemma_decimal_not_empty(n / 10);
    }
}

/// Different digits have different characters.
pub proof fn lemma_digit_injective(c: nat, d: nat)
    requires
        c < 10,
        d < 10,
        digit_char(c) == digit_char(d),
    ensures
        c == d,
{
}

/// Different numbers have different decimal forms.
pub proof fn lemma_decimal_injective(a: nat, b: nat)
    requires
        decimal(a) == decimal(b),
    ensures
        a == b,
    decreases a,
{
    if a < 10 && b < 10 {
        assert(decimal(a)[0] == digit_char(a));
        assert(decimal(b)[0] == digit_char(b));
        lemma_digit_injective(a, b);
    } else if a >= 10 && b >= 10 {
        let x = decimal(a / 10);
        let y = decimal(b / 10);
        let c = digit_char(a % 10);
        let d = digit_char(b % 10);
        assert(x.push(c).last() == c && y.push(d).last() == d);
        assert(x.push(c).drop_last() =~= x);
        assert(y.push(d).drop_last() =~= y);
        lemma_digit_injective(a % 10, b % 10);
        lemma_decimal_injective(a / 10, b / 10);
    } else {
        // One digit on one side, two or more on the other.
        lemma_decimal_not_empty(a / 10);
        lemma_decimal_not_empty(b / 10);
        if a < 10 {
            assert(decimal(a).len() == 1);
        } else {
            assert(decimal(b).len() == 1);
        }
    }
}

/// No two bindings share a label: the label tells the index.
pub proof fn lemma_labels_distinct(i: nat, j: nat)
    requires
        i != j,
    ensures
        spec_label(i) != spec_label(j),
{
    if spec_label(i) == spec_label(j) {
        let p = label_prefix();
        let n = p.len() as int;
        assert(spec_label(i).subrange(n, spec_label(i).len() as int) =~= decimal(i));
        assert(spec_label(j).subrange(n, spec_label(j).len() as int) =~= decimal(j));
        lemma_decimal_injective(i, j);
    }
}

} // verus!
