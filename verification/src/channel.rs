//! Broker channel names.
//!
//! A room has no state on the relay: it is the broker channel whose name is the
//! room id written in decimal. Distinct rooms have distinct channels.

use vstd::prelude::*;
use vstd::string::StringExecFns;

verus! {

/// The room whose channel carries every name change, whatever room the
/// sender is in.
pub const PRESENCE_ROOM: i32 = 0;

/// The character that writes the digit `d`.
pub open spec fn digit_char(d: int) -> char {
    if d == 0 {
        '0'
    } else if d == 1 {
        '1'
    } else if d == 2 {
        '2'
    } else if d == 3 {
        '3'
    } else if d == 4 {
        '4'
    } else if d == 5 {
        '5'
    } else if d == 6 {
        '6'
    } else if d == 7 {
        '7'
    } else if d == 8 {
        '8'
    } else {
        '9'
    }
}

/// The decimal digits of `n`, most significant first, without leading zeros.
pub open spec fn decimal_digits(n: nat) -> Seq<char>
    decreases n,
{
    if n < 10 {
        seq![digit_char(n as int)]
    } else {
        decimal_digits(n / 10).push(digit_char((n % 10) as int))
    }
}

/// `n` written in decimal, with a leading `-` where it is negative.
pub open spec fn decimal(n: int) -> Seq<char> {
    if n < 0 {
        seq!['-'] + decimal_digits((-n) as nat)
    } else {
        decimal_digits(n as nat)
    }
}

/// The name of the broker channel of a room.
pub open spec fn channel_of(room_id: i32) -> Seq<char> {
    decimal(room_id as int)
}

/// Digits written from a list that holds the least significant one first.
spec fn written(digits: Seq<u8>) -> Seq<char> {
    Seq::new(digits.len(), |i: int| digit_char(digits[digits.len() - 1 - i] as int))
}

fn digit_text(d: u8) -> (text: &'static str)
    requires
        d < 10,
    ensures
        text@ == seq![digit_char(d as int)],
{
    proof {
        reveal_strlit("0");
        reveal_strlit("1");
        reveal_strlit("2");
        reveal_strlit("3");
        reveal_strlit("4");
        reveal_strlit("5");
        reveal_strlit("6");
        reveal_strlit("7");
        reveal_strlit("8");
        reveal_strlit("9");
    }
    let text = if d == 0 {
        "0"
    } else if d == 1 {
        "1"
    } else if d == 2 {
        "2"
    } else if d == 3 {
        "3"
    } else if d == 4 {
        "4"
    } else if d == 5 {
        "5"
    } else if d == 6 {
        "6"
    } else if d == 7 {
        "7"
    } else if d == 8 {
        "8"
    } else {
        "9"
    };
    assert(text@ =~= seq![digit_char(d as int)]);
    text
}

/// Appends the decimal digits of `n` to `out`.
pub fn push_decimal(out: &mut String, n: u64)
    ensures
        final(out)@ == old(out)@ + decimal_digits(n as nat),
{
    let mut digits: Vec<u8> = Vec::new();
    let mut rest: u64 = n;
    while rest >= 10
        invariant
            decimal_digits(n as nat) == decimal_digits(rest as nat) + written(digits@),
            forall|k: int| 0 <= k < digits.len() ==> digits[k] < 10,
        decreases rest,
    {
        let ghost before = digits@;
        let low: u8 = (rest % 10) as u8;
        digits.push(low);
        assert(decimal_digits(rest as nat) == decimal_digits((rest / 10) as nat).push(
            digit_char(low as int),
        ));
        assert(written(digits@) =~= seq![digit_char(low as int)] + written(before));
        assert(decimal_digits(rest as nat) + written(before) =~= decimal_digits(
            (rest / 10) as nat,
        ) + written(digits@));
        rest = rest / 10;
    }
    let ghost before = digits@;
    digits.push(rest as u8);
    assert(written(digits@) =~= decimal_digits(rest as nat) + written(before));
    let mut i: usize = digits.len();
    while i > 0
        invariant
            i <= digits.len(),
            forall|k: int| 0 <= k < digits.len() ==> digits[k] < 10,
            out@ == old(out)@ + written(digits@).take(digits.len() - i),
        decreases i,
    {
        i -= 1;
        let ghost so_far = out@;
        out.append(digit_text(digits[i]));
        assert(written(digits@).take(digits.len() - i) =~= written(digits@).take(
            digits.len() - i - 1,
        ).push(digit_char(digits[i as int] as int)));
        assert(out@ =~= old(out)@ + written(digits@).take(digits.len() - i));
    }
    assert(written(digits@).take(digits.len() as int) =~= written(digits@));
}

/// The broker channel of `room_id`: the id in decimal.
pub fn channel_name(room_id: i32) -> (name: String)
    ensures
        name@ == channel_of(room_id),
{
    let mut name = String::new();
    if room_id < 0 {
        proof {
            reveal_strlit("-");
        }
        name.append("-");
        assert(name@ =~= seq!['-']);
        let magnitude: u64 = (-(room_id as i64)) as u64;
        push_decimal(&mut name, magnitude);
    } else {
        push_decimal(&mut name, room_id as u64);
        assert(name@ =~= decimal_digits(room_id as nat));
    }
    name
}

/// Every number has at least one digit, and each of its digits is a digit.
pub proof fn lemma_decimal_digits_shape(n: nat)
    ensures
        decimal_digits(n).len() >= 1,
        n >= 10 ==> decimal_digits(n).len() >= 2,
        forall|i: int|
            0 <= i < decimal_digits(n).len() ==> '0' <= #[trigger] decimal_digits(n)[i] <= '9',
    decreases n,
{
    if n >= 10 {
        lemma_decimal_digits_shape(n / 10);
    }
}

/// Two numbers with the same digits are the same number.
pub proof fn lemma_decimal_digits_injective(a: nat, b: nat)
    requires
        decimal_digits(a) == decimal_digits(b),
    ensures
        a == b,
    decreases a,
{
    lemma_decimal_digits_shape(a);
    lemma_decimal_digits_shape(b);
    if a < 10 {
        assert(decimal_digits(a)[0] == digit_char(a as int));
        if b >= 10 {
            assert(false);
        }
        assert(decimal_digits(b)[0] == digit_char(b as int));
    } else {
        if b < 10 {
            assert(false);
        }
        let da = decimal_digits(a / 10);
        let db = decimal_digits(b / 10);
        assert(decimal_digits(a).last() == digit_char((a % 10) as int));
        assert(decimal_digits(b).last() == digit_char((b % 10) as int));
        assert(decimal_digits(a).drop_last() =~= da);
        assert(decimal_digits(b).drop_last() =~= db);
        lemma_decimal_digits_injective(a / 10, b / 10);
    }
}

/// Distinct rooms have distinct channels: a room's deliveries can never be
/// taken for another's.
pub proof fn lemma_channel_of_injective(a: i32, b: i32)
    ensures
        channel_of(a) == channel_of(b) <==> a == b,
{
    if channel_of(a) == channel_of(b) {
        let ma = (if a < 0 { -a } else { a as int }) as nat;
        let mb = (if b < 0 { -b } else { b as int }) as nat;
        lemma_decimal_digits_shape(ma);
        lemma_decimal_digits_shape(mb);
        if a < 0 && b < 0 {
            assert(decimal_digits(ma) =~= channel_of(a).skip(1));
            assert(decimal_digits(mb) =~= channel_of(b).skip(1));
            lemma_decimal_digits_injective(ma, mb);
        } else if a >= 0 && b >= 0 {
            lemma_decimal_digits_injective(ma, mb);
        } else if a < 0 {
            assert(channel_of(a)[0] == '-');
            assert(channel_of(b)[0] == decimal_digits(mb)[0]);
        } else {
            assert(channel_of(b)[0] == '-');
            assert(channel_of(a)[0] == decimal_digits(ma)[0]);
        }
    }
}

} // verus!
