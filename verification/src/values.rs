//! Values that cross the boundary to the storage engine, and their textual
//! form for the display layer.

use vstd::prelude::*;
use vstd::string::*;

verus! {

/// A value bound to a statement parameter.
#[derive(Clone, Debug, PartialEq, Eq)]
pub enum Param {
    Null,
    Integer(i64),
    Text(String),
}

/// What a parameter is, with its text as a sequence of characters.
pub enum ParamView {
    Null,
    Integer(int),
    Text(Seq<char>),
}

impl View for Param {
    type V = ParamView;

    open spec fn view(&self) -> ParamView {
        match *self {
            Param::Null => ParamView::Null,
            Param::Integer(i) => ParamView::Integer(i as int),
            Param::Text(s) => ParamView::Text(s@),
        }
    }
}

/// The views of a sequence of parameters, position by position.
pub open spec fn param_views(params: Seq<Param>) -> Seq<ParamView> {
    Seq::new(params.len(), |i: int| params[i]@)
}

/// A value read from a result column. A real number is held as the text it
/// prints as, since that text is all the display layer ever sees of it.
#[derive(Clone, Debug, PartialEq, Eq)]
pub enum SqlValue {
    Null,
    Integer(i64),
    Real(String),
    Text(String),
    Blob(Vec<u8>),
}

/// The character for a decimal digit.
pub open spec fn digit_char(d: int) -> char {
    if d == 0 {
        '0'
    } else if d == 1 {
        '1'
    } else if d == 2 {
        '2'
    } else if d == 3 {
        '3'
    } else if d == 4 {
        '4'
    } else if d == 5 {
        '5'
    } else if d == 6 {
        '6'
    } else if d == 7 {
        '7'
    } else if d == 8 {
        '8'
    } else {
        '9'
    }
}

/// The decimal digits of a natural number, most significant first, without
/// leading zeros; zero is the single digit `0`.
pub open spec fn decimal_digits(n: nat) -> Seq<char>
    decreases n,
{
    if n < 10 {
        seq![digit_char(n as int)]
    } else {
        decimal_digits(n / 10).push(digit_char((n % 10) as int))
    }
}

/// The decimal text of an integer: a minus sign for a negative number, then
/// the digits of its magnitude.
pub open spec fn integer_text(i: int) -> Seq<char> {
    if i < 0 {
        seq!['-'] + decimal_digits((-i) as nat)
    } else {
        decimal_digits(i as nat)
    }
}

/// The text shown for a value: nothing for a null and for a blob, decimal
/// digits for an integer, and the text itself for a real number or a string.
pub open spec fn value_text(v: SqlValue) -> Seq<char> {
    match v {
        SqlValue::Null => Seq::empty(),
        SqlValue::Integer(i) => integer_text(i as int),
        SqlValue::Real(t) => t@,
        SqlValue::Text(t) => t@,
        SqlValue::Blob(_) => Seq::empty(),
    }
}

/// The text of one decimal digit.
fn digit_string(d: u64) -> (s: String)
    requires
        d < 10,
    ensures
        s@ == seq![digit_char(d as int)],
{
    let digit = if d == 0 {
        proof {
            reveal_strlit("0");
        }
        "0"
    } else if d == 1 {
        proof {
            reveal_strlit("1");
        }
        "1"
    } else if d == 2 {
        proof {
            reveal_strlit("2");
        }
        "2"
    } else if d == 3 {
        proof {
            reveal_strlit("3");
        }
        "3"
    } else if d == 4 {
        proof {
            reveal_strlit("4");
        }
        "4"
    } else if d == 5 {
        proof {
            reveal_strlit("5");
        }
        "5"
    } else if d == 6 {
        proof {
            reveal_strlit("6");
        }
        "6"
    } else if d == 7 {
        proof {
            reveal_strlit("7");
        }
        "7"
    } else if d == 8 {
        proof {
            reveal_strlit("8");
        }
        "8"
    } else {
        proof {
            reveal_strlit("9");
        }
        "9"
    };
    assert(digit@ =~= seq![digit_char(d as int)]);
    String::from_str(digit)
}

/// The decimal digits of a natural number as text.
fn digits_string(n: u64) -> (s: String)
    ensures
        s@ == decimal_digits(n as nat),
    decreases n,
{
    if n < 10 {
        digit_string(n)
    } else {
        let front = digits_string(n / 10);
        let last = digit_string(n % 10);
        let text = front.concat(last.as_str());
        assert(text@ =~= decimal_digits((n / 10) as nat).push(digit_char((n % 10) as int)));
        text
    }
}

/// The decimal text of an integer.
pub fn integer_to_string(i: i64) -> (s: String)
    ensures
        s@ == integer_text(i as int),
{
    if i < 0 {
        let magnitude: u64 = ((-(i + 1)) as u64) + 1;
        proof {
            reveal_strlit("-");
        }
        let text = String::from_str("-").concat(digits_string(magnitude).as_str());
        assert(text@ =~= seq!['-'] + decimal_digits((-i) as nat));
        text
    } else {
        digits_string(i as u64)
    }
}

/// Renders a value as text. Nulls and blobs both become the empty string.
pub fn value_to_string(v: &SqlValue) -> (s: String)
    ensures
        s@ == value_text(*v),
{
    match v {
        SqlValue::Null => String::new(),
        SqlValue::Integer(i) => integer_to_string(*i),
        SqlValue::Real(t) => t.clone(),
        SqlValue::Text(t) => t.clone(),
        SqlValue::Blob(_) => String::new(),
    }
}

/// A null and a blob are both shown as the empty string, whatever the blob
/// holds.
pub proof fn lemma_null_and_blob_are_empty(bytes: Vec<u8>)
    ensures
        value_text(SqlValue::Null) == Seq::<char>::empty(),
        value_text(SqlValue::Blob(bytes)) == Seq::<char>::empty(),
{
}

} // verus!
