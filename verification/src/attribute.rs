//! The value of one attribute of a credential, and its text.

use crate::registry::Record;
use vstd::prelude::*;
use vstd::string::StringExecFns;

verus! {

/// The value that a credential in the W3C encoding carries for an attribute:
/// a text or a number for an attribute itself, a truth value for a predicate
/// that was proved of it.
#[derive(Clone, Debug, PartialEq, Eq)]
pub enum CredentialAttributeValue {
    String(String),
    Number(i32),
    Bool(bool),
}

/// The model of `CredentialAttributeValue` that contracts speak of.
pub enum CredentialAttributeValueView {
    String(Seq<char>),
    Number(i32),
    Bool(bool),
}

impl View for CredentialAttributeValue {
    type V = CredentialAttributeValueView;

    open spec fn view(&self) -> CredentialAttributeValueView {
        match self {
            CredentialAttributeValue::String(text) => CredentialAttributeValueView::String(text@),
            CredentialAttributeValue::Number(number) => CredentialAttributeValueView::Number(
                *number,
            ),
            CredentialAttributeValue::Bool(truth) => CredentialAttributeValueView::Bool(*truth),
        }
    }
}

impl Record for CredentialAttributeValue {
    fn duplicate(&self) -> (copy: Self) {
        match self {
            CredentialAttributeValue::String(text) => CredentialAttributeValue::String(
                text.clone(),
            ),
            CredentialAttributeValue::Number(number) => CredentialAttributeValue::Number(*number),
            CredentialAttributeValue::Bool(truth) => CredentialAttributeValue::Bool(*truth),
        }
    }
}

/// The decimal digit for `d`, which is below ten.
pub open spec fn digit(d: nat) -> char {
    if d == 0 {
        '0'
    } else if d == 1 {
        '1'
    } else if d == 2 {
        '2'
    } else if d == 3 {
        '3'
    } else if d == 4 {
        '4'
    } else if d == 5 {
        '5'
    } else if d == 6 {
        '6'
    } else if d == 7 {
        '7'
    } else if d == 8 {
        '8'
    } else {
        '9'
    }
}

/// `n` in decimal digits, without leading zeros.
pub open spec fn natural_text(n: nat) -> Seq<char>
    decreases n,
{
    if n < 10 {
        seq![digit(n)]
    } else {
        natural_text(n / 10).push(digit(n % 10))
    }
}

/// `n` in decimal digits, after a minus sign where it is negative.
pub open spec fn integer_text(n: int) -> Seq<char> {
    if n < 0 {
        seq!['-'] + natural_text((-n) as nat)
    } else {
        natural_text(n as nat)
    }
}

/// The text of a truth value.
pub open spec fn truth_text(truth: bool) -> Seq<char> {
    if truth {
        "true"@
    } else {
        "false"@
    }
}

/// The text that stands for `value` where a presentation reveals it raw.
pub open spec fn value_text(value: CredentialAttributeValueView) -> Seq<char> {
    match value {
        CredentialAttributeValueView::String(text) => text,
        CredentialAttributeValueView::Number(number) => integer_text(number as int),
        CredentialAttributeValueView::Bool(truth) => truth_text(truth),
    }
}

fn digit_text(d: u32) -> (text: &'static str)
    requires
        d < 10,
    ensures
        text@ == seq![digit(d as nat)],
{
    proof {
        reveal_strlit("0");
        reveal_strlit("1");
        reveal_strlit("2");
        reveal_strlit("3");
        reveal_strlit("4");
        reveal_strlit("5");
        reveal_strlit("6");
        reveal_strlit("7");
        reveal_strlit("8");
        reveal_strlit("9");
    }
    let text = if d == 0 {
        "0"
    } else if d == 1 {
        "1"
    } else if d == 2 {
        "2"
    } else if d == 3 {
        "3"
    } else if d == 4 {
        "4"
    } else if d == 5 {
        "5"
    } else if d == 6 {
        "6"
    } else if d == 7 {
        "7"
    } else if d == 8 {
        "8"
    } else {
        "9"
    };
    assert(text@ =~= seq![digit(d as nat)]);
    text
}

fn natural_to_text(n: u32) -> (text: String)
    ensures
        text@ == natural_text(n as nat),
    decreases n,
{
    if n < 10 {
        String::from_str(digit_text(n))
    } else {
        let mut text = natural_to_text(n / 10);
        text.append(digit_text(n % 10));
        assert(text@ =~= natural_text(n as nat));
        text
    }
}

fn integer_to_text(n: i32) -> (text: String)
    ensures
        text@ == integer_text(n as int),
{
    if n < 0 {
        let wide: i64 = n as i64;
        let magnitude: u32 = (0 - wide) as u32;
        let mut text = String::from_str("-");
        let digits = natural_to_text(magnitude);
        text.append(digits.as_str());
        proof {
            reveal_strlit("-");
            assert("-"@ =~= seq!['-']);
        }
        text
    } else {
        natural_to_text(n as u32)
    }
}

impl CredentialAttributeValue {
    /// The text that stands for the value where a presentation reveals it raw.
    pub fn to_text(&self) -> (text: String)
        ensures
            text@ == value_text(self@),
    {
        match self {
            CredentialAttributeValue::String(text) => text.clone(),
            CredentialAttributeValue::Number(number) => integer_to_text(*number),
            CredentialAttributeValue::Bool(truth) => if *truth {
                String::from_str("true")
            } else {
                String::from_str("false")
            },
        }
    }

    /// Whether `self` and `other` are the same value.
    pub fn same(&self, other: &CredentialAttributeValue) -> (same: bool)
        ensures
            same == (self@ == other@),
    {
        match (self, other) {
            (CredentialAttributeValue::String(a), CredentialAttributeValue::String(b)) => *a == *b,
            (CredentialAttributeValue::Number(a), CredentialAttributeValue::Number(b)) => *a == *b,
            (CredentialAttributeValue::Bool(a), CredentialAttributeValue::Bool(b)) => *a == *b,
            _ => false,
        }
    }
}

} // verus!
