//! Why a navigation request was refused.

use vstd::prelude::*;

verus! {

/// The character of a decimal digit.
pub open spec fn digit_char(d: nat) -> char {
    if d == 0 { '0' }
    else if d == 1 { '1' }
    else if d == 2 { '2' }
    else if d == 3 { '3' }
    else if d == 4 { '4' }
    else if d == 5 { '5' }
    else if d == 6 { '6' }
    else if d == 7 { '7' }
    else if d == 8 { '8' }
    else { '9' }
}

/// The decimal spelling of `n`, most significant digit first, without
/// leading zeros.
pub open spec fn decimal(n: nat) -> Seq<char>
    decreases n,
{
    if n < 10 {
        seq![digit_char(n)]
    } else {
        decimal(n / 10).push(digit_char(n % 10))
    }
}

/// The text of a digit below ten.
fn digit_str(d: usize) -> (s: &'static str)
    requires
        d < 10,
    ensures
        s@ == seq![digit_char(d as nat)],
{
    proof {
        reveal_strlit("0");
        reveal_strlit("1");
        reveal_strlit("2");
        reveal_strlit("3");
        reveal_strlit("4");
        reveal_strlit("5");
        reveal_strlit("6");
        reveal_strlit("7");
        reveal_strlit("8");
        reveal_strlit("9");
    }
    if d == 0 { "0" }
    else if d == 1 { "1" }
    else if d == 2 { "2" }
    else if d == 3 { "3" }
    else if d == 4 { "4" }
    else if d == 5 { "5" }
    else if d == 6 { "6" }
    else if d == 7 { "7" }
    else if d == 8 { "8" }
    else { "9" }
}

/// Appends the decimal spelling of `n` to `out`.
pub fn push_decimal(out: &mut String, n: usize)
    ensures
        final(out)@ == old(out)@ + decimal(n as nat),
    decreases n,
{
    if n >= 10 {
        push_decimal(out, n / 10);
    }
    out.append(digit_str(n % 10));
    assert(decimal(n as nat) == if n < 10 {
        seq![digit_char(n as nat)]
    } else {
        decimal((n / 10) as nat).push(digit_char((n % 10) as nat))
    });
}

/// Why a navigation request was refused.
#[derive(Debug, Clone, PartialEq, Eq)]
#[non_exhaustive]
pub enum NavigationError {
    /// The page type was never added to this router.
    UnknownPage {
        /// The type name of the page; used only for diagnostics.
        page_type: &'static str,
    },
    /// The index is past the end of the page list.
    IndexOutOfRange {
        /// The requested index.
        index: usize,
        /// How many pages the router has.
        len: usize,
    },
}

/// The message a refused navigation is described with.
pub open spec fn navigation_error_text(error: NavigationError) -> Seq<char> {
    match error {
        NavigationError::UnknownPage { page_type } => "page "@ + page_type@
            + " is not in this router"@,
        NavigationError::IndexOutOfRange { index, len } => "page index "@ + decimal(index as nat)
            + " is out of range (the router has "@ + decimal(len as nat) + " pages)"@,
    }
}

impl NavigationError {
    /// The human-readable description: names the page or the index.
    pub fn to_string(&self) -> (text: String)
        ensures
            text@ == navigation_error_text(*self),
    {
        match self {
            NavigationError::UnknownPage { page_type } => {
                let mut text = String::from_str("page ");
                text.append(page_type);
                text.append(" is not in this router");
                text
            },
            NavigationError::IndexOutOfRange { index, len } => {
                let mut text = String::from_str("page index ");
                push_decimal(&mut text, *index);
                text.append(" is out of range (the router has ");
                push_decimal(&mut text, *len);
                text.append(" pages)");
                text
            },
        }
    }
}

} // verus!
