use vstd::prelude::*;

verus! {

/// The arena holds no car under the id that an operation named.
///
/// The field is the id that was asked for.
#[derive(Debug, Clone, Copy, PartialEq, Eq, Structural)]
pub struct NoCarFound(pub u32);

/// The character of a decimal digit `d` (`d < 10`).
pub open spec fn digit_char(d: nat) -> char {
    if d == 0 {
        '0'
    } else if d == 1 {
        '1'
    } else if d == 2 {
        '2'
    } else if d == 3 {
        '3'
    } else if d == 4 {
        '4'
    } else if d == 5 {
        '5'
    } else if d == 6 {
        '6'
    } else if d == 7 {
        '7'
    } else if d == 8 {
        '8'
    } else {
        '9'
    }
}

/// The value of a decimal digit character (`'0'..='9'` map to `0..=9`).
pub open spec fn digit_value(c: char) -> nat {
    if c == '1' {
        1
    } else if c == '2' {
        2
    } else if c == '3' {
        3
    } else if c == '4' {
        4
    } else if c == '5' {
        5
    } else if c == '6' {
        6
    } else if c == '7' {
        7
    } else if c == '8' {
        8
    } else if c == '9' {
        9
    } else {
        0
    }
}

/// The decimal representation of `n`, most significant digit first, with no
/// leading zero (so `0` is written `"0"`).
pub open spec fn decimal(n: nat) -> Seq<char>
    decreases n,
{
    if n < 10 {
        seq![digit_char(n)]
    } else {
        decimal(n / 10).push(digit_char(n % 10))
    }
}

/// The number that a string of decimal digits denotes.
pub open spec fn decimal_value(s: Seq<char>) -> nat
    decreases s.len(),
{
    if s.len() == 0 {
        0
    } else {
        decimal_value(s.drop_last()) * 10 + digit_value(s.last())
    }
}

/// The text before the car's id in the message of a [`NoCarFound`].
pub open spec fn message_prefix() -> Seq<char> {
    "No car found in the given arena at the given ID "@
}

/// The message of a [`NoCarFound`] for the car id `id`.
pub open spec fn message_text(id: u32) -> Seq<char> {
    message_prefix() + decimal(id as nat) + "."@
}

/// Reading back the decimal representation of `n` gives `n`; every character
/// of it is a digit and it is never empty.
pub proof fn lemma_decimal_round_trip(n: nat)
    ensures
        decimal_value(decimal(n)) == n,
        decimal(n).len() >= 1,
    decreases n,
{
    if n < 10 {
        let s = decimal(n);
        assert(s.drop_last() =~= Seq::<char>::empty());
        assert(digit_value(digit_char(n)) == n);
        assert(s.last() == digit_char(n));
        assert(decimal_value(s) == decimal_value(s.drop_last()) * 10 + digit_value(s.last()));
    } else {
        lemma_decimal_round_trip(n / 10);
        let s = decimal(n);
        assert(s.drop_last() =~= decimal(n / 10));
        assert(digit_value(digit_char(n % 10)) == n % 10);
        assert(n == (n / 10) * 10 + n % 10);
        assert(s.last() == digit_char(n % 10));
        assert(decimal_value(s) == decimal_value(s.drop_last()) * 10 + digit_value(s.last()));
    }
}

/// The message of a [`NoCarFound`] names the car: errors about two different
/// car ids have different messages, and the id can be read back from the
/// message (it is the decimal number between the fixed prefix and the final
/// full stop).
pub proof fn message_identifies_car(a: u32, b: u32)
    ensures
        decimal_value(
            message_text(a).subrange(
                message_prefix().len() as int,
                message_text(a).len() - 1,
            ),
        ) == a,
        message_text(a) == message_text(b) ==> a == b,
{
    reveal_strlit(".");
    reveal_strlit("No car found in the given arena at the given ID ");
    lemma_decimal_round_trip(a as nat);
    lemma_decimal_round_trip(b as nat);
    let ta = message_text(a);
    let tb = message_text(b);
    let p = message_prefix().len() as int;
    assert(ta.subrange(p, ta.len() - 1) =~= decimal(a as nat));
    assert(tb.subrange(p, tb.len() - 1) =~= decimal(b as nat));
}

/// Appends the character of the digit `d` to `s`.
fn push_digit(s: &mut String, d: u32)
    requires
        d < 10,
    ensures
        final(s)@ == old(s)@.push(digit_char(d as nat)),
{
    proof {
        reveal_strlit("0");
        reveal_strlit("1");
        reveal_strlit("2");
        reveal_strlit("3");
        reveal_strlit("4");
        reveal_strlit("5");
        reveal_strlit("6");
        reveal_strlit("7");
        reveal_strlit("8");
        reveal_strlit("9");
    }
    if d == 0 {
        s.append("0");
    } else if d == 1 {
        s.append("1");
    } else if d == 2 {
        s.append("2");
    } else if d == 3 {
        s.append("3");
    } else if d == 4 {
        s.append("4");
    } else if d == 5 {
        s.append("5");
    } else if d == 6 {
        s.append("6");
    } else if d == 7 {
        s.append("7");
    } else if d == 8 {
        s.append("8");
    } else {
        s.append("9");
    }
}

/// Appends the decimal representation of `n` to `s`.
pub fn push_decimal(s: &mut String, n: u32)
    ensures
        final(s)@ == old(s)@ + decimal(n as nat),
    decreases n,
{
    if n >= 10 {
        push_decimal(s, n / 10);
        push_digit(s, n % 10);
        assert(final(s)@ =~= old(s)@ + decimal(n as nat));
    } else {
        push_digit(s, n);
        assert(final(s)@ =~= old(s)@ + decimal(n as nat));
    }
}

impl NoCarFound {
    /// The id of the car that was not found.
    pub fn car_id(&self) -> (id: u32)
        ensures
            id == self.0,
    {
        self.0
    }

    /// The human-readable message of this error:
    /// `No car found in the given arena at the given ID {id}.`
    pub fn message(&self) -> (text: String)
        ensures
            text@ == message_text(self.0),
    {
        let mut text = String::from_str("No car found in the given arena at the given ID ");
        push_decimal(&mut text, self.0);
        text.append(".");
        text
    }
}

} // verus!
