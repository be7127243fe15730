use vstd::prelude::*;
use vstd::string::StringExecFns;

verus! {

/// A key/value metadata tag reported to the fleet controller.
pub struct Label {
    pub key: String,
    pub value: String,
}

/// The character for one decimal digit.
pub open spec fn digit_char(d: nat) -> char {
    if d == 0 {
        '0'
    } else if d == 1 {
        '1'
    } else if d == 2 {
        '2'
    } else if d == 3 {
        '3'
    } else if d == 4 {
        '4'
    } else if d == 5 {
        '5'
    } else if d == 6 {
        '6'
    } else if d == 7 {
        '7'
    } else if d == 8 {
        '8'
    } else {
        '9'
    }
}

/// The decimal rendering of a number, without leading zeros (a single `'0'`
/// for zero itself).
pub open spec fn decimal_digits(n: nat) -> Seq<char>
    decreases n,
{
    if n < 10 {
        seq![digit_char(n)]
    } else {
        decimal_digits(n / 10).push(digit_char(n % 10))
    }
}

/// The key of a correlation label: `gs-` followed by the identifier in
/// decimal.
pub open spec fn correlation_key(id: u16) -> Seq<char> {
    "gs-"@ + decimal_digits(id as nat)
}

fn digit_str(d: u8) -> (r: &'static str)
    requires
        d < 10,
    ensures
        r@ == seq![digit_char(d as nat)],
{
    proof {
        reveal_strlit("0");
        reveal_strlit("1");
        reveal_strlit("2");
        reveal_strlit("3");
        reveal_strlit("4");
        reveal_strlit("5");
        reveal_strlit("6");
        reveal_strlit("7");
        reveal_strlit("8");
        reveal_strlit("9");
    }
    let r: &'static str = match d {
        0 => "0",
        1 => "1",
        2 => "2",
        3 => "3",
        4 => "4",
        5 => "5",
        6 => "6",
        7 => "7",
        8 => "8",
        _ => "9",
    };
    proof {
        assert(r@ =~= seq![digit_char(d as nat)]);
    }
    r
}

/// Append the decimal rendering of `n` to `s`.
fn push_decimal(s: &mut String, n: u16)
    ensures
        final(s)@ == old(s)@ + decimal_digits(n as nat),
    decreases n,
{
    if n >= 10 {
        push_decimal(s, n / 10);
        let d = digit_str((n % 10) as u8);
        s.append(d);
        proof {
            assert(s@ =~= old(s)@ + decimal_digits(n as nat));
        }
    } else {
        let d = digit_str(n as u8);
        s.append(d);
        proof {
            assert(s@ =~= old(s)@ + decimal_digits(n as nat));
        }
    }
}

/// Build the correlation label `gs-<id>` / `space-id` for a given identifier.
pub fn correlation_label(id: u16) -> (l: Label)
    ensures
        l.key@ == correlation_key(id),
        l.value@ == "space-id"@,
{
    let mut key: String = "gs-".to_owned();
    push_decimal(&mut key, id);
    Label { key, value: "space-id".to_owned() }
}

/// Relies on rand::random: draws one value of a uniformly random 16-bit
/// space. Nothing is promised of the value; identifiers need not be unique.
#[verifier::external_body]
fn random_u16() -> u16 {
    rand::random::<u16>()
}

/// A correlation label for a freshly drawn random identifier. Identifiers are
/// drawn from a 16-bit space and need not be unique; the only promise is the
/// label's shape.
pub fn fresh_correlation_label() -> (l: Label)
    ensures
        exists|id: u16| l.key@ == correlation_key(id),
        l.value@ == "space-id"@,
{
    let id = random_u16();
    correlation_label(id)
}

} // verus!
