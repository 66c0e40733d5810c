use vstd::prelude::*;
use crate::string::push_char;

verus! {

/// The errors of the library.
#[derive(Debug, Clone, PartialEq, Eq)]
pub enum RmxError {
    Canceled,
    NotSupported,
    NotImplemented,
    InvalidOperation(String),
    Timeout,
    NoInput,
    Argument(String),
    Invalid(String),
    Missing(String),
    Http(String),
    Network(String),
    Command(i32, String),
    NotFound(String),
    Io(String),
    Exceeded(String),
    ExitCode(i32),
    /// An error that another library reported, carried by its own text.
    External(String),
}

/// An error as a mathematical value: the same variants, with the
/// characters of each text.
pub enum ErrorView {
    Canceled,
    NotSupported,
    NotImplemented,
    InvalidOperation(Seq<char>),
    Timeout,
    NoInput,
    Argument(Seq<char>),
    Invalid(Seq<char>),
    Missing(Seq<char>),
    Http(Seq<char>),
    Network(Seq<char>),
    Command(i32, Seq<char>),
    NotFound(Seq<char>),
    Io(Seq<char>),
    Exceeded(Seq<char>),
    ExitCode(i32),
    External(Seq<char>),
}

impl View for RmxError {
    type V = ErrorView;

    open spec fn view(&self) -> ErrorView {
        match self {
            RmxError::Canceled => ErrorView::Canceled,
            RmxError::NotSupported => ErrorView::NotSupported,
            RmxError::NotImplemented => ErrorView::NotImplemented,
            RmxError::InvalidOperation(s) => ErrorView::InvalidOperation(s@),
            RmxError::Timeout => ErrorView::Timeout,
            RmxError::NoInput => ErrorView::NoInput,
            RmxError::Argument(s) => ErrorView::Argument(s@),
            RmxError::Invalid(s) => ErrorView::Invalid(s@),
            RmxError::Missing(s) => ErrorView::Missing(s@),
            RmxError::Http(s) => ErrorView::Http(s@),
            RmxError::Network(s) => ErrorView::Network(s@),
            RmxError::Command(c, s) => ErrorView::Command(*c, s@),
            RmxError::NotFound(s) => ErrorView::NotFound(s@),
            RmxError::Io(s) => ErrorView::Io(s@),
            RmxError::Exceeded(s) => ErrorView::Exceeded(s@),
            RmxError::ExitCode(c) => ErrorView::ExitCode(*c),
            RmxError::External(s) => ErrorView::External(s@),
        }
    }
}

/// A result holding text, both sides viewed.
pub open spec fn view_text(r: Result<String, RmxError>) -> Result<Seq<char>, ErrorView> {
    match r {
        Ok(s) => Ok(s@),
        Err(e) => Err(e@),
    }
}

/// The character of a decimal digit.
pub open spec fn digit_char(d: nat) -> char {
    if d == 0 { '0' }
    else if d == 1 { '1' }
    else if d == 2 { '2' }
    else if d == 3 { '3' }
    else if d == 4 { '4' }
    else if d == 5 { '5' }
    else if d == 6 { '6' }
    else if d == 7 { '7' }
    else if d == 8 { '8' }
    else { '9' }
}

/// The decimal digits of `n`, most significant first, without leading zeros.
pub open spec fn digits(n: nat) -> Seq<char>
    decreases n,
{
    if n < 10 {
        seq![digit_char(n)]
    } else {
        digits(n / 10).push(digit_char(n % 10))
    }
}

/// The decimal form of `n`, with a minus sign when negative.
pub open spec fn spec_decimal(n: int) -> Seq<char> {
    if n < 0 {
        seq!['-'] + digits((-n) as nat)
    } else {
        digits(n as nat)
    }
}

fn digit(d: u64) -> (c: char)
    requires
        d < 10,
    ensures
        c == digit_char(d as nat),
{
    if d == 0 { '0' }
    else if d == 1 { '1' }
    else if d == 2 { '2' }
    else if d == 3 { '3' }
    else if d == 4 { '4' }
    else if d == 5 { '5' }
    else if d == 6 { '6' }
    else if d == 7 { '7' }
    else if d == 8 { '8' }
    else { '9' }
}

fn push_digits(n: u64, out: &mut String)
    ensures
        final(out)@ == old(out)@ + digits(n as nat),
    decreases n,
{
    if n >= 10 {
        push_digits(n / 10, out);
    }
    push_char(out, digit(n % 10));
    proof {
        if n >= 10 {
            assert(old(out)@ + digits(n as nat) =~= old(out)@ + digits((n / 10) as nat) + seq![digit_char((n % 10) as nat)]);
        } else {
            assert(digits(n as nat) == seq![digit_char(n as nat)]);
            assert(n % 10 == n);
        }
    }
}

/// The decimal form of `n` (what `n.to_string()` gives).
pub fn decimal(n: i64) -> (s: String)
    ensures
        s@ == spec_decimal(n as int),
{
    let mut s = String::new();
    if n < 0 {
        push_char(&mut s, '-');
        let m: u64 = if n == i64::MIN { 9223372036854775808u64 } else { (-n) as u64 };
        push_digits(m, &mut s);
    } else {
        push_digits(n as u64, &mut s);
    }
    s
}

/// The text that describes an error.
pub open spec fn spec_message(e: ErrorView) -> Seq<char> {
    match e {
        ErrorView::Canceled => "Operation is canceled"@,
        ErrorView::NotSupported => "Operation is not supported"@,
        ErrorView::NotImplemented => "Not implemented"@,
        ErrorView::InvalidOperation(s) => "Invalid operation. "@ + s,
        ErrorView::Timeout => "Operation timed out"@,
        ErrorView::NoInput => "No input was provided."@,
        ErrorView::Argument(s) => "Argument error. "@ + s,
        ErrorView::Invalid(s) => "Invalid error. "@ + s,
        ErrorView::Missing(s) => "Missing error. "@ + s,
        ErrorView::Http(s) => "Http error. "@ + s,
        ErrorView::Network(s) => "Network error. "@ + s,
        ErrorView::Command(c, s) => "Command error "@ + spec_decimal(c as int) + ". "@ + s,
        ErrorView::NotFound(s) => "Item not found. "@ + s,
        ErrorView::Io(s) => s,
        ErrorView::Exceeded(s) => "Error exceeded. "@ + s,
        ErrorView::ExitCode(c) => "Application exited with error "@ + spec_decimal(c as int),
        ErrorView::External(s) => s,
    }
}

fn with_text(head: &str, tail: &String) -> (r: String)
    ensures
        r@ == head@ + tail@,
{
    let mut r = head.to_owned();
    r.append(tail.as_str());
    r
}

impl RmxError {
    /// The text that describes the error.
    pub fn message(&self) -> (m: String)
        ensures
            m@ == spec_message(self@),
    {
        match self {
            RmxError::Canceled => "Operation is canceled".to_owned(),
            RmxError::NotSupported => "Operation is not supported".to_owned(),
            RmxError::NotImplemented => "Not implemented".to_owned(),
            RmxError::InvalidOperation(s) => with_text("Invalid operation. ", s),
            RmxError::Timeout => "Operation timed out".to_owned(),
            RmxError::NoInput => "No input was provided.".to_owned(),
            RmxError::Argument(s) => with_text("Argument error. ", s),
            RmxError::Invalid(s) => with_text("Invalid error. ", s),
            RmxError::Missing(s) => with_text("Missing error. ", s),
            RmxError::Http(s) => with_text("Http error. ", s),
            RmxError::Network(s) => with_text("Network error. ", s),
            RmxError::Command(c, s) => {
                let mut r = "Command error ".to_owned();
                r.append(decimal(*c as i64).as_str());
                r.append(". ");
                r.append(s.as_str());
                r
            },
            RmxError::NotFound(s) => with_text("Item not found. ", s),
            RmxError::Io(s) => s.clone(),
            RmxError::Exceeded(s) => with_text("Error exceeded. ", s),
            RmxError::ExitCode(c) => {
                let mut r = "Application exited with error ".to_owned();
                r.append(decimal(*c as i64).as_str());
                r
            },
            RmxError::External(s) => s.clone(),
        }
    }
}

} // verus!
