//! Identifiers of the entries of a listing: the listing's own identifier, a
//! hyphen, and the entry's position in decimal.

use vstd::prelude::*;

verus! {

/// The character of one decimal digit.
pub open spec fn digit(d: nat) -> char {
    if d == 0 {
        '0'
    } else if d == 1 {
        '1'
    } else if d == 2 {
        '2'
    } else if d == 3 {
        '3'
    } else if d == 4 {
        '4'
    } else if d == 5 {
        '5'
    } else if d == 6 {
        '6'
    } else if d == 7 {
        '7'
    } else if d == 8 {
        '8'
    } else {
        '9'
    }
}

/// A number in decimal, most significant digit first, without leading zeros.
pub open spec fn decimal(n: nat) -> Seq<char>
    decreases n,
{
    if n < 10 {
        seq![digit(n)]
    } else {
        decimal(n / 10).push(digit(n % 10))
    }
}

/// The identifier of the entry at `index` in a listing identified by `root_id`.
pub open spec fn derived(root_id: Seq<char>, index: nat) -> Seq<char> {
    root_id + seq!['-'] + decimal(index)
}

fn digit_text(d: usize) -> (text: &'static str)
    requires
        d < 10,
    ensures
        text@ == seq![digit(d as nat)],
{
    proof {
        reveal_strlit("0");
        reveal_strlit("1");
        reveal_strlit("2");
        reveal_strlit("3");
        reveal_strlit("4");
        reveal_strlit("5");
        reveal_strlit("6");
        reveal_strlit("7");
        reveal_strlit("8");
        reveal_strlit("9");
    }
    let text: &'static str = if d == 0 {
        "0"
    } else if d == 1 {
        "1"
    } else if d == 2 {
        "2"
    } else if d == 3 {
        "3"
    } else if d == 4 {
        "4"
    } else if d == 5 {
        "5"
    } else if d == 6 {
        "6"
    } else if d == 7 {
        "7"
    } else if d == 8 {
        "8"
    } else {
        "9"
    };
    assert(text@ =~= seq![digit(d as nat)]);
    text
}

fn append_decimal(text: &mut String, n: usize)
    ensures
        final(text)@ == old(text)@ + decimal(n as nat),
    decreases n,
{
    if n >= 10 {
        append_decimal(text, n / 10);
    }
    text.append(digit_text(n % 10));
    assert(text@ =~= old(text)@ + decimal(n as nat));
}

/// Builds the identifier of the entry at `index`: `root_id`, a hyphen, and
/// `index` in decimal.
pub fn derived_id(root_id: &str, index: usize) -> (id: String)
    ensures
        id@ == derived(root_id@, index as nat),
{
    proof {
        reveal_strlit("-");
    }
    let mut id = String::from_str(root_id);
    id.append("-");
    assert(id@ =~= root_id@ + seq!['-']);
    append_decimal(&mut id, index);
    id
}

proof fn decimal_has_digits(n: nat)
    ensures
        decimal(n).len() >= 1,
        n >= 10 ==> decimal(n).len() >= 2,
    decreases n,
{
    if n >= 10 {
        decimal_has_digits(n / 10);
    }
}

/// Two numbers that are written alike are the same number.
pub proof fn decimal_is_injective(a: nat, b: nat)
    requires
        decimal(a) == decimal(b),
    ensures
        a == b,
    decreases a,
{
    decimal_has_digits(a);
    decimal_has_digits(b);
    if a < 10 && b < 10 {
        assert(decimal(a)[0] == digit(a));
        assert(decimal(b)[0] == digit(b));
    } else if a >= 10 && b >= 10 {
        assert(decimal(a).drop_last() =~= decimal(a / 10));
        assert(decimal(b).drop_last() =~= decimal(b / 10));
        assert(decimal(a).last() == digit(a % 10));
        assert(decimal(b).last() == digit(b % 10));
        decimal_is_injective(a / 10, b / 10);
        assert(a % 10 == b % 10);
    } else {
        assert(decimal(a).len() != decimal(b).len());
    }
}

/// Under one root identifier, different positions get different identifiers.
pub proof fn positions_have_distinct_ids(root_id: Seq<char>, a: nat, b: nat)
    requires
        a != b,
    ensures
        derived(root_id, a) != derived(root_id, b),
{
    if derived(root_id, a) == derived(root_id, b) {
        let start = root_id.len() + 1;
        let end_a = derived(root_id, a).len() as int;
        let end_b = derived(root_id, b).len() as int;
        assert(derived(root_id, a).subrange(start as int, end_a) =~= decimal(a));
        assert(derived(root_id, b).subrange(start as int, end_b) =~= decimal(b));
        decimal_is_injective(a, b);
    }
}

} // verus!
