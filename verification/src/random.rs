use vstd::prelude::*;
use rand::Rng;
use crate::string::push_char;

verus! {

/// The versions of UUID that can be generated.
#[derive(Debug, Default, Clone, Copy, PartialEq, Eq, PartialOrd, Ord, Hash)]
pub enum UuidVersion {
    V1,
    V3,
    #[default]
    V4,
    V5,
}

/// A number drawn uniformly below `n` (`rand::Rng::gen_range(0..n)` on the
/// thread's generator); the contract claims only that it is below `n`.
#[verifier::external_body]
fn random_below(n: u32) -> (r: u32)
    requires
        n > 0,
    ensures
        r < n,
{
    rand::thread_rng().gen_range(0..n)
}

/// The character that the draw `n` (below 62) stands for: digits, then
/// upper-case letters, then lower-case letters.
pub open spec fn alphanum_of(n: int) -> char {
    if n <= 9 {
        (n + 48) as char
    } else if n <= 35 {
        (n + 55) as char
    } else {
        (n + 61) as char
    }
}

/// The character that the draw `n` (below 94) stands for: the 62
/// alphanumeric characters, then the 32 characters from '_' to '~'.
pub open spec fn char_of(n: int) -> char {
    if n <= 61 {
        alphanum_of(n)
    } else {
        (n + 33) as char
    }
}

/// `c` is one of the characters that `char` draws.
pub open spec fn is_drawn(c: char) -> bool {
    exists|n: int| 0 <= n < 94 && c == char_of(n)
}

/// `c` is an ASCII digit or letter.
pub open spec fn is_alphanum(c: char) -> bool {
    ('0' <= c <= '9') || ('A' <= c <= 'Z') || ('a' <= c <= 'z')
}

/// The character for draw `n`.
pub fn alphanum_for(n: u32) -> (c: char)
    requires
        n < 62,
    ensures
        c == alphanum_of(n as int),
        is_alphanum(c),
{
    if n <= 9 {
        ((n + 48) as u8) as char
    } else if n <= 35 {
        ((n + 55) as u8) as char
    } else {
        ((n + 61) as u8) as char
    }
}

/// The character for draw `n`.
pub fn char_for(n: u32) -> (c: char)
    requires
        n < 94,
    ensures
        c == char_of(n as int),
        '0' <= c <= '~',
{
    if n <= 61 {
        alphanum_for(n)
    } else {
        ((n + 33) as u8) as char
    }
}

/// A random ASCII digit or letter.
pub fn alphanum() -> (c: char)
    ensures
        exists|n: int| 0 <= n < 62 && c == alphanum_of(n),
        is_alphanum(c),
{
    let n = random_below(62);
    alphanum_for(n)
}

/// A random printable ASCII character: a digit, a letter, or one of the
/// characters from '_' to '~'.
pub fn char() -> (c: char)
    ensures
        is_drawn(c),
{
    let n = random_below(94);
    char_for(n)
}

/// `len` random ASCII digits and letters.
pub fn alphanum_str(len: usize) -> (s: String)
    ensures
        s@.len() == len,
        forall|i: int| 0 <= i < len ==> is_alphanum(#[trigger] s@[i]),
{
    let mut s = String::new();
    let mut i: usize = 0;
    while i < len
        invariant
            i <= len,
            s@.len() == i,
            forall|j: int| 0 <= j < i ==> is_alphanum(#[trigger] s@[j]),
        decreases len - i,
    {
        let c = alphanum();
        push_char(&mut s, c);
        i = i + 1;
    }
    s
}

/// `len` random printable ASCII characters, each drawn as `char` draws it.
pub fn string(len: usize) -> (s: String)
    ensures
        s@.len() == len,
        forall|i: int| 0 <= i < len ==> #[trigger] is_drawn(s@[i]),
{
    let mut s = String::new();
    let mut i: usize = 0;
    while i < len
        invariant
            i <= len,
            s@.len() == i,
            forall|j: int| 0 <= j < i ==> #[trigger] is_drawn(s@[j]),
        decreases len - i,
    {
        let c = char();
        push_char(&mut s, c);
        assert(s@[i as int] == c);
        i = i + 1;
    }
    s
}

} // verus!
