use vstd::prelude::*;
use crate::error::{RmxError, ErrorView};
use crate::io::{drop_last_char, view_line};
use crate::text::{chars_of, string_of};

pub use crate::io::get_char;

verus! {

/// The text of the error for input that does not parse.
pub const INVALID_INPUT: &'static str = "Invalid input";

/// A line as read from standard input without its last character; an
/// empty result is no input.
pub fn get(line: String) -> (r: Result<String, RmxError>)
    ensures
        drop_last_char(line@).len() == 0 ==> view_line(r) == Err::<Seq<char>, ErrorView>(ErrorView::NoInput),
        drop_last_char(line@).len() > 0 ==> view_line(r) == Ok::<Seq<char>, ErrorView>(drop_last_char(line@)),
{
    let v = chars_of(line.as_str());
    if v.len() <= 1 {
        return Err(RmxError::NoInput);
    }
    assert(v@.subrange(0, v@.len() - 1) =~= v@.drop_last());
    Ok(string_of(v.as_slice(), 0, v.len() - 1))
}

/// The number typed on a line: `parse` reads the line without its last
/// character and reports `None` for text that is not a number, which is
/// invalid input; an empty line is no input.
pub fn get_numeric<T, F: Fn(&str) -> Option<T>>(line: String, parse: F) -> (r: Result<T, RmxError>)
    requires
        forall|s: &str| #[trigger] call_requires(parse, (s,)),
    ensures
        drop_last_char(line@).len() == 0 ==> (r matches Err(e) && e@ == ErrorView::NoInput),
        drop_last_char(line@).len() > 0 ==> exists|s: &str, o: Option<T>|
            s@ == drop_last_char(line@) && #[trigger] call_ensures(parse, (s,), o) && match o {
                Some(v) => r == Ok::<T, RmxError>(v),
                None => r matches Err(e) && e@ == ErrorView::Invalid(INVALID_INPUT@),
            },
{
    let input = match get(line) {
        Ok(s) => s,
        Err(e) => return Err(e),
    };
    let s = input.as_str();
    let o = parse(s);
    match o {
        Some(v) => Ok(v),
        None => Err(RmxError::Invalid(INVALID_INPUT.to_owned())),
    }
}

/// A password as read from the terminal; an empty one is no input.
pub fn get_password(input: String) -> (r: Result<String, RmxError>)
    ensures
        input@.len() == 0 ==> view_line(r) == Err::<Seq<char>, ErrorView>(ErrorView::NoInput),
        input@.len() > 0 ==> view_line(r) == Ok::<Seq<char>, ErrorView>(input@),
{
    if input.as_str().is_empty() {
        return Err(RmxError::NoInput);
    }
    Ok(input)
}

/// The answer to a yes/no question: 'y' or 'Y' confirms, anything else
/// cancels.
pub fn confirm(input: char) -> (r: Result<bool, RmxError>)
    ensures
        (input == 'y' || input == 'Y') ==> r == Ok::<bool, RmxError>(true),
        !(input == 'y' || input == 'Y') ==> (r matches Err(e) && e@ == ErrorView::Canceled),
{
    match input {
        'y' | 'Y' => Ok(true),
        _ => Err(RmxError::Canceled),
    }
}

} // verus!
