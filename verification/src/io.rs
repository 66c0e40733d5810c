use vstd::prelude::*;
use crate::error::{RmxError, ErrorView};
use crate::text::{chars_of, string_of};

verus! {

/// A key read from the terminal, as far as the input helpers care.
#[derive(Debug, Clone, Copy, PartialEq, Eq)]
pub enum KeyInput {
    Char(char),
    Esc,
    Enter,
    Other,
}

/// The prompt of the selection menu when none (or an empty one) is given.
pub const MENU_PROMPT: &'static str = "Please select an option";

/// `s` without its last character, when it has one.
pub open spec fn drop_last_char(s: Seq<char>) -> Seq<char> {
    if s.len() > 0 {
        s.drop_last()
    } else {
        s
    }
}

pub open spec fn view_line(r: Result<String, RmxError>) -> Result<Seq<char>, ErrorView> {
    match r {
        Ok(s) => Ok(s@),
        Err(e) => Err(e@),
    }
}

/// A line as read from standard input, without its trailing line feed.
pub fn get(line: String) -> (r: Result<String, RmxError>)
    ensures
        view_line(r) == Ok::<Seq<char>, ErrorView>(drop_last_char(line@)),
{
    let v = chars_of(line.as_str());
    if v.len() == 0 {
        return Ok(line);
    }
    assert(v@.subrange(0, v@.len() - 1) =~= v@.drop_last());
    Ok(string_of(v.as_slice(), 0, v.len() - 1))
}

/// A line as read from standard input, without its trailing line feed; an
/// empty line is no input.
pub fn get_str(line: String) -> (r: Result<String, RmxError>)
    ensures
        drop_last_char(line@).len() == 0 ==> view_line(r) == Err::<Seq<char>, ErrorView>(ErrorView::NoInput),
        drop_last_char(line@).len() > 0 ==> view_line(r) == Ok::<Seq<char>, ErrorView>(drop_last_char(line@)),
{
    let input = match get(line) {
        Ok(s) => s,
        Err(e) => return Err(e),
    };
    if input.as_str().is_empty() {
        return Err(RmxError::NoInput);
    }
    Ok(input)
}

/// The number typed on a line: `parse` reads the line without its line
/// feed, and what it reports as wrong becomes an I/O error; an empty line
/// is no input.
pub fn get_numeric<T, F: Fn(&str) -> Result<T, String>>(line: String, parse: F) -> (r: Result<T, RmxError>)
    requires
        forall|s: &str| #[trigger] call_requires(parse, (s,)),
    ensures
        drop_last_char(line@).len() == 0 ==> (r matches Err(e) && e@ == ErrorView::NoInput),
        drop_last_char(line@).len() > 0 ==> exists|s: &str, o: Result<T, String>|
            s@ == drop_last_char(line@) && #[trigger] call_ensures(parse, (s,), o) && match o {
                Ok(v) => r == Ok::<T, RmxError>(v),
                Err(m) => r matches Err(e) && e@ == ErrorView::Io(m@),
            },
{
    let input = match get_str(line) {
        Ok(s) => s,
        Err(e) => return Err(e),
    };
    let s = input.as_str();
    let o = parse(s);
    match o {
        Ok(v) => Ok(v),
        Err(m) => Err(RmxError::Io(m)),
    }
}

/// What one key does while waiting for a character: a character ends the
/// wait with it, Esc or Enter end it with no input, any other key is
/// skipped (`None`).
pub fn get_char(key: KeyInput) -> (r: Option<Result<char, RmxError>>)
    ensures
        key matches KeyInput::Char(c) ==> (r matches Some(Ok(x)) && x == c),
        (key is Esc || key is Enter) ==> (r matches Some(Err(e)) && e@ == ErrorView::NoInput),
        key is Other ==> r is None,
{
    match key {
        KeyInput::Char(c) => Some(Ok(c)),
        KeyInput::Esc | KeyInput::Enter => Some(Err(RmxError::NoInput)),
        KeyInput::Other => None,
    }
}

/// A password as read from the terminal; an empty one is no input.
pub fn get_password_str(input: String) -> (r: Result<String, RmxError>)
    ensures
        input@.len() == 0 ==> view_line(r) == Err::<Seq<char>, ErrorView>(ErrorView::NoInput),
        input@.len() > 0 ==> view_line(r) == Ok::<Seq<char>, ErrorView>(input@),
{
    if input.as_str().is_empty() {
        return Err(RmxError::NoInput);
    }
    Ok(input)
}

/// The answer to a yes/no question: 'y' or 'Y' confirms, anything else is
/// no input.
pub fn confirm(input: char) -> (r: Result<bool, RmxError>)
    ensures
        (input == 'y' || input == 'Y') ==> r == Ok::<bool, RmxError>(true),
        !(input == 'y' || input == 'Y') ==> (r matches Err(e) && e@ == ErrorView::NoInput),
{
    match input {
        'y' | 'Y' => Ok(true),
        _ => Err(RmxError::NoInput),
    }
}

/// The prompt that the selection menu shows.
pub fn menu_prompt<'a>(prompt: Option<&'a str>) -> (r: &'a str)
    ensures
        r@ == match prompt {
            Some(p) => if p@.len() > 0 { p@ } else { MENU_PROMPT@ },
            None => MENU_PROMPT@,
        },
{
    match prompt {
        Some(s) => if !s.is_empty() {
            s
        } else {
            MENU_PROMPT
        },
        None => MENU_PROMPT,
    }
}

/// The choice that the menu item at `selection` stands for among `count`
/// items: the last item is 0, every other item its position counted from 1.
pub open spec fn menu_choice(selection: int, count: int) -> int {
    if selection == count - 1 {
        0
    } else {
        selection + 1
    }
}

/// Some item of a menu of `count` items stands for the choice `k`.
pub open spec fn is_menu_choice(k: int, count: int) -> bool {
    exists|i: int| 0 <= i < count && #[trigger] menu_choice(i, count) == k
}

/// Every item of a menu stands for its own choice, and each choice below
/// the number of items is made by exactly one item.
pub proof fn law_menu_choices(count: int)
    requires
        count > 0,
    ensures
        forall|i: int| 0 <= i < count ==> 0 <= #[trigger] menu_choice(i, count) < count,
        forall|i: int, j: int| 0 <= i < count && 0 <= j < count && i != j
            ==> #[trigger] menu_choice(i, count) != #[trigger] menu_choice(j, count),
        forall|k: int| 0 <= k < count ==> #[trigger] is_menu_choice(k, count),
{
    assert forall|k: int| 0 <= k < count implies #[trigger] is_menu_choice(k, count) by {
        let i = if k == 0 { count - 1 } else { k - 1 };
        assert(menu_choice(i, count) == k);
    }
}

/// The choice that a menu selection stands for (see `menu_choice`).
pub fn display_menu(selection: usize, count: usize) -> (r: usize)
    requires
        selection < count,
    ensures
        r == menu_choice(selection as int, count as int),
{
    if selection == count - 1 {
        0
    } else {
        selection + 1
    }
}

/// The text printed before reading input: the prompt and a space, or
/// nothing for a missing or empty prompt.
pub fn prompt_text(prompt: Option<&str>) -> (r: Option<String>)
    ensures
        match prompt {
            Some(p) => if p@.len() > 0 {
                r matches Some(t) && t@ == p@ + " "@
            } else {
                r is None
            },
            None => r is None,
        },
{
    match prompt {
        Some(p) => if !p.is_empty() {
            let mut t = p.to_owned();
            t.append(" ");
            Some(t)
        } else {
            None
        },
        None => None,
    }
}

} // verus!
