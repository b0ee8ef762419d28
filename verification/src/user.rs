//! User identifiers: what text names a user, and how a user is written out.

use crate::error::ErrorKind;
use vstd::prelude::*;
use vstd::string::StringExecFns;

verus! {

/// Identifies a user. Always positive.
#[derive(Clone, Copy, Debug, PartialEq, Eq)]
pub struct UserId {
    value: i32,
}

/// Whether `c` is one of the ten decimal digits.
pub open spec fn is_digit(c: char) -> bool {
    '0' <= c <= '9'
}

/// The number that a decimal digit stands for.
pub open spec fn digit_value(c: char) -> nat {
    (c as int - '0' as int) as nat
}

/// The digit that stands for a number below ten.
pub open spec fn digit_char(d: nat) -> char {
    ('0' as int + d) as char
}

/// Whether `s` holds decimal digits only.
pub open spec fn all_digits(s: Seq<char>) -> bool {
    forall|i: int| 0 <= i < s.len() ==> is_digit(#[trigger] s[i])
}

/// The number that a run of decimal digits denotes; 0 for the empty run.
pub open spec fn digits_value(s: Seq<char>) -> nat
    decreases s.len(),
{
    if s.len() == 0 {
        0
    } else {
        10 * digits_value(s.drop_last()) + digit_value(s.last())
    }
}

/// `text` without one leading `+`, if it has one.
pub open spec fn unsigned_part(text: Seq<char>) -> Seq<char> {
    if text.len() > 0 && text[0] == '+' {
        text.drop_first()
    } else {
        text
    }
}

/// The user that `text` names: a non-empty run of decimal digits, with an
/// optional `+` before it, that denotes a number from 1 to `i32::MAX`.
pub open spec fn user_of_text(text: Seq<char>) -> Option<int> {
    let digits = unsigned_part(text);
    if digits.len() > 0 && all_digits(digits) && 0 < digits_value(digits) <= i32::MAX {
        Some(digits_value(digits) as int)
    } else {
        None
    }
}

/// A number in decimal, without sign or leading zeros.
pub open spec fn decimal_digits(n: nat) -> Seq<char>
    decreases n,
{
    if n < 10 {
        seq![digit_char(n)]
    } else {
        decimal_digits(n / 10).push(digit_char(n % 10))
    }
}

/// A run of digits denotes at least as much as each of its beginnings.
proof fn lemma_digits_value_grows(s: Seq<char>, k: int)
    requires
        0 <= k <= s.len(),
    ensures
        digits_value(s.take(k)) <= digits_value(s),
    decreases s.len(),
{
    if k == s.len() {
        assert(s.take(k) =~= s);
    } else {
        assert(s.drop_last().take(k) =~= s.take(k));
        lemma_digits_value_grows(s.drop_last(), k);
    }
}

/// The decimal digits of a number are digits, and denote the number.
pub proof fn lemma_decimal_digits_denote(n: nat)
    ensures
        decimal_digits(n).len() > 0,
        all_digits(decimal_digits(n)),
        digits_value(decimal_digits(n)) == n,
    decreases n,
{
    let text = decimal_digits(n);
    if n < 10 {
        assert(text.drop_last() =~= Seq::<char>::empty());
        assert(digits_value(text.drop_last()) == 0);
    } else {
        lemma_decimal_digits_denote(n / 10);
        assert(text.drop_last() =~= decimal_digits(n / 10));
        assert(text.last() == digit_char(n % 10));
    }
}

/// A user's number, written out in decimal, is read back as that user: the
/// name of a user's directory names no other user.
pub proof fn law_decimal_names_the_user(user: int)
    requires
        0 < user <= i32::MAX,
    ensures
        user_of_text(decimal_digits(user as nat)) == Some(user),
{
    lemma_decimal_digits_denote(user as nat);
    let text = decimal_digits(user as nat);
    assert(is_digit(text[0]));
}

/// The one-character text of a digit.
fn digit_text(d: u32) -> (r: &'static str)
    requires
        d < 10,
    ensures
        r@ == seq![digit_char(d as nat)],
{
    proof {
        reveal_strlit("0");
        reveal_strlit("1");
        reveal_strlit("2");
        reveal_strlit("3");
        reveal_strlit("4");
        reveal_strlit("5");
        reveal_strlit("6");
        reveal_strlit("7");
        reveal_strlit("8");
        reveal_strlit("9");
    }
    let r = match d {
        0 => "0",
        1 => "1",
        2 => "2",
        3 => "3",
        4 => "4",
        5 => "5",
        6 => "6",
        7 => "7",
        8 => "8",
        _ => "9",
    };
    assert(r@ =~= seq![digit_char(d as nat)]);
    r
}

/// Appends `n` in decimal to `out`.
fn append_decimal(out: &mut String, n: u32)
    ensures
        final(out)@ == old(out)@ + decimal_digits(n as nat),
    decreases n,
{
    if n >= 10 {
        append_decimal(out, n / 10);
    }
    out.append(digit_text(n % 10));
    assert(final(out)@ =~= old(out)@ + decimal_digits(n as nat));
}

impl View for UserId {
    type V = int;

    closed spec fn view(&self) -> int {
        self.value as int
    }
}

impl UserId {
    #[verifier::type_invariant]
    spec fn positive(self) -> bool {
        self.value > 0
    }

    /// The user with the given number, if the number is positive.
    pub fn new(value: i32) -> (r: Option<UserId>)
        ensures
            value > 0 ==> r is Some && r->0@ == value,
            value <= 0 ==> r is None,
    {
        if value > 0 {
            Some(UserId { value })
        } else {
            None
        }
    }

    /// The user's number.
    pub fn get(&self) -> (r: i32)
        ensures
            r == self@,
            r > 0,
    {
        proof {
            use_type_invariant(self);
        }
        self.value
    }

    /// Appends the user's number in decimal to `out`.
    pub fn append_to(&self, out: &mut String)
        ensures
            final(out)@ == old(out)@ + decimal_digits(self@ as nat),
    {
        proof {
            use_type_invariant(self);
        }
        append_decimal(out, self.value as u32);
    }

    /// Reads a user from the text of a request.
    pub fn parse(text: &str) -> (r: Result<UserId, ErrorKind>)
        ensures
            match user_of_text(text@) {
                Some(n) => r is Ok && r->Ok_0@ == n,
                None => r == Err::<UserId, ErrorKind>(ErrorKind::InvalidUserId),
            },
    {
        let ghost digits = unsigned_part(text@);
        let ghost skip: int = text@.len() - digits.len();
        let mut valid = true;
        let mut seen: bool = false;
        let mut acc: i32 = 0;
        let chars = text.chars();
        for ch in it: chars
            invariant
                it.seq() == text@,
                digits == unsigned_part(text@),
                skip == text@.len() - digits.len(),
                0 <= skip <= 1,
                0 <= acc,
                seen == (it.index() > 0),
                valid ==> {
                    let k = if it.index() >= skip { it.index() - skip } else { 0 };
                    &&& all_digits(digits.take(k))
                    &&& acc == digits_value(digits.take(k))
                },
                !valid ==> !(all_digits(digits) && digits_value(digits) <= i32::MAX),
        {
            let ghost i = it.index() as int;
            if !seen && ch == '+' {
                assert(skip == 1);
            } else if valid {
                let ghost k = i - skip;
                assert(digits[k] == ch);
                assert(digits.take(k + 1).drop_last() =~= digits.take(k));
                assert(digits.take(k + 1).last() == ch);
                if '0' <= ch && ch <= '9' {
                    let d: i32 = (ch as u32 - '0' as u32) as i32;
                    if acc > (i32::MAX - d) / 10 {
                        proof {
                            lemma_digits_value_grows(digits, k + 1);
                        }
                        valid = false;
                    } else {
                        acc = acc * 10 + d;
                    }
                } else {
                    valid = false;
                }
            }
            seen = true;
        }
        assert(digits.take(digits.len() as int) =~= digits);
        if valid && acc > 0 {
            Ok(UserId { value: acc })
        } else {
            Err(ErrorKind::InvalidUserId)
        }
    }
}

} // verus!
