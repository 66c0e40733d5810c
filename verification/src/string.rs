use vstd::prelude::*;
use vstd::string::*;
use crate::text::chars_of;

verus! {

/// The characters that the random-text helpers treat as special.
pub const SPECIAL_CHARS: [char; 10] = ['!', '@', '#', '$', '%', '^', '&', '*', '(', ')'];

/// The predicate "is the character `c`".
pub open spec fn is_char(c: char) -> spec_fn(char) -> bool {
    |x: char| x == c
}

/// The predicate "is one of the characters of `set`".
pub open spec fn in_set(set: Seq<char>) -> spec_fn(char) -> bool {
    |x: char| set.contains(x)
}

/// Number of leading characters of `s` that satisfy `p`.
pub open spec fn leading(s: Seq<char>, p: spec_fn(char) -> bool) -> nat
    decreases s.len(),
{
    if s.len() == 0 {
        0
    } else if p(s[0]) {
        1 + leading(s.drop_first(), p)
    } else {
        0
    }
}

/// Number of trailing characters of `s` that satisfy `p`.
pub open spec fn trailing(s: Seq<char>, p: spec_fn(char) -> bool) -> nat
    decreases s.len(),
{
    if s.len() == 0 {
        0
    } else if p(s.last()) {
        1 + trailing(s.drop_last(), p)
    } else {
        0
    }
}

/// `s` without its leading run of `p`-characters; a string made only of
/// such characters is left as it is.
pub open spec fn spec_trim_start(s: Seq<char>, p: spec_fn(char) -> bool) -> Seq<char> {
    if leading(s, p) == s.len() {
        s
    } else {
        s.skip(leading(s, p) as int)
    }
}

/// `s` without its trailing run of `p`-characters; a string made only of
/// such characters is left as it is.
pub open spec fn spec_trim_end(s: Seq<char>, p: spec_fn(char) -> bool) -> Seq<char> {
    if trailing(s, p) == s.len() {
        s
    } else {
        s.take(s.len() - trailing(s, p))
    }
}

/// `s` without its leading and trailing runs of `p`-characters; a string
/// made only of such characters is left as it is.
pub open spec fn spec_trim(s: Seq<char>, p: spec_fn(char) -> bool) -> Seq<char> {
    if leading(s, p) == s.len() {
        s
    } else {
        s.subrange(leading(s, p) as int, s.len() - trailing(s, p))
    }
}

/// The number of bytes that `c` takes in UTF-8.
pub open spec fn utf8_len(c: char) -> nat {
    if (c as u32) < 0x80 {
        1
    } else if (c as u32) < 0x800 {
        2
    } else if (c as u32) < 0x10000 {
        3
    } else {
        4
    }
}

/// The byte position in UTF-8 at which the `k`-th character of `s` starts.
pub open spec fn byte_offset(s: Seq<char>, k: int) -> nat
    decreases k,
{
    if k <= 0 {
        0
    } else {
        byte_offset(s, k - 1) + utf8_len(s[k - 1])
    }
}

/// The number of bytes of `s` in UTF-8.
pub open spec fn byte_len(s: Seq<char>) -> nat {
    byte_offset(s, s.len() as int)
}

/// The byte position `b` lies between two characters of `s`.
pub open spec fn is_boundary(s: Seq<char>, b: int) -> bool {
    exists|k: int| 0 <= k <= s.len() && #[trigger] byte_offset(s, k) == b
}

/// The character position whose byte position is `b`.
pub open spec fn char_index(s: Seq<char>, b: int) -> int {
    choose|k: int| 0 <= k <= s.len() && #[trigger] byte_offset(s, k) == b
}

/// The bytes that a trim keeps, taken as the string slice `[from, to)`
/// where `from` is the number of leading characters to remove and `to` is
/// the byte length less the number of trailing characters to remove: the
/// slice exists when both lie between characters and `from <= to`, or when
/// every character is removed (the string is then kept whole).
pub open spec fn str_trim_ok(s: Seq<char>, p: spec_fn(char) -> bool) -> bool {
    ||| leading(s, p) == s.len()
    ||| is_boundary(s, leading(s, p) as int)
        && is_boundary(s, byte_len(s) - trailing(s, p))
        && leading(s, p) <= byte_len(s) - trailing(s, p)
}

/// What `trim` gives: the characters between the byte positions described
/// at `str_trim_ok`, or `s` when every character is removed.
pub open spec fn str_trim(s: Seq<char>, p: spec_fn(char) -> bool) -> Seq<char> {
    if leading(s, p) == s.len() {
        s
    } else {
        s.subrange(char_index(s, leading(s, p) as int), char_index(s, byte_len(s) - trailing(s, p)))
    }
}

/// `trim_start` has a slice to give: every character is removed, or the
/// count of leading characters to remove, taken as a byte position, lies
/// between two characters.
pub open spec fn str_trim_start_ok(s: Seq<char>, p: spec_fn(char) -> bool) -> bool {
    leading(s, p) == s.len() || is_boundary(s, leading(s, p) as int)
}

/// What `trim_start` gives: the characters from the byte position that
/// counts the leading characters to remove.
pub open spec fn str_trim_start(s: Seq<char>, p: spec_fn(char) -> bool) -> Seq<char> {
    if leading(s, p) == s.len() {
        s
    } else {
        s.skip(char_index(s, leading(s, p) as int))
    }
}

/// `trim_end` has a slice to give: every character is removed, or the byte
/// length less the count of trailing characters to remove lies between two
/// characters.
pub open spec fn str_trim_end_ok(s: Seq<char>, p: spec_fn(char) -> bool) -> bool {
    trailing(s, p) == s.len() || is_boundary(s, byte_len(s) - trailing(s, p))
}

/// What `trim_end` gives: the characters up to the byte length less the
/// count of trailing characters to remove.
pub open spec fn str_trim_end(s: Seq<char>, p: spec_fn(char) -> bool) -> Seq<char> {
    if trailing(s, p) == s.len() {
        s
    } else {
        s.take(char_index(s, byte_len(s) - trailing(s, p)))
    }
}

/// The predicate holds only of ASCII characters.
pub open spec fn ascii_only(p: spec_fn(char) -> bool) -> bool {
    forall|c: char| #[trigger] p(c) ==> (c as u32) < 0x80
}

/// `s` starting with `c`: unchanged when it already does, else `c` put in front.
pub open spec fn spec_prefix(s: Seq<char>, c: char) -> Seq<char> {
    if s.len() > 0 && s[0] == c {
        s
    } else {
        seq![c] + s
    }
}

/// `s` ending with `c`: unchanged when it already does, else `c` put after it.
pub open spec fn spec_suffix(s: Seq<char>, c: char) -> Seq<char> {
    if s.len() > 0 && s.last() == c {
        s
    } else {
        s.push(c)
    }
}

/// What `leading` counts: a run of `p`-characters, ended by the end of `s`
/// or by a character outside `p`.
pub proof fn lemma_leading_props(s: Seq<char>, p: spec_fn(char) -> bool)
    ensures
        leading(s, p) <= s.len(),
        forall|j: int| 0 <= j < leading(s, p) ==> #[trigger] p(s[j]),
        leading(s, p) < s.len() ==> !p(s[leading(s, p) as int]),
    decreases s.len(),
{
    if s.len() > 0 && p(s[0]) {
        lemma_leading_props(s.drop_first(), p);
        assert forall|j: int| 0 <= j < leading(s, p) implies #[trigger] p(s[j]) by {
            if j > 0 {
                assert(s[j] == s.drop_first()[j - 1]);
            }
        }
    }
}

/// What `trailing` counts: a run of `p`-characters at the end of `s`,
/// preceded by the start of `s` or by a character outside `p`.
pub proof fn lemma_trailing_props(s: Seq<char>, p: spec_fn(char) -> bool)
    ensures
        trailing(s, p) <= s.len(),
        forall|j: int| s.len() - trailing(s, p) <= j < s.len() ==> #[trigger] p(s[j]),
        trailing(s, p) < s.len() ==> !p(s[s.len() - trailing(s, p) - 1]),
    decreases s.len(),
{
    if s.len() > 0 && p(s.last()) {
        lemma_trailing_props(s.drop_last(), p);
        assert forall|j: int| s.len() - trailing(s, p) <= j < s.len() implies #[trigger] p(s[j]) by {
            if j < s.len() - 1 {
                assert(s[j] == s.drop_last()[j]);
            }
        }
    }
}

/// A run of `i` leading `p`-characters that ends at a non-`p` character or
/// at the end of `s` is exactly what `leading` counts.
pub proof fn lemma_leading_eq(s: Seq<char>, p: spec_fn(char) -> bool, i: int)
    requires
        0 <= i <= s.len(),
        forall|j: int| 0 <= j < i ==> #[trigger] p(s[j]),
        i == s.len() || !p(s[i]),
    ensures
        leading(s, p) == i,
{
    lemma_leading_props(s, p);
    if leading(s, p) < i {
        assert(p(s[leading(s, p) as int]));
    } else if leading(s, p) > i {
        assert(p(s[i]));
    }
}

/// A run of `i` trailing `p`-characters that starts after a non-`p`
/// character or at the start of `s` is exactly what `trailing` counts.
pub proof fn lemma_trailing_eq(s: Seq<char>, p: spec_fn(char) -> bool, i: int)
    requires
        0 <= i <= s.len(),
        forall|j: int| s.len() - i <= j < s.len() ==> #[trigger] p(s[j]),
        i == s.len() || !p(s[s.len() - i - 1]),
    ensures
        trailing(s, p) == i,
{
    lemma_trailing_props(s, p);
    let t = trailing(s, p) as int;
    if t < i {
        assert(p(s[s.len() - t - 1]));
    } else if t > i {
        assert(p(s[s.len() - i - 1]));
    }
}

/// Every character of a string whose leading run covers it all satisfies `p`,
/// and such a string's trailing run covers it all too.
proof fn lemma_all_match(s: Seq<char>, p: spec_fn(char) -> bool)
    requires
        leading(s, p) == s.len(),
    ensures
        trailing(s, p) == s.len(),
{
    lemma_leading_props(s, p);
    lemma_trailing_eq(s, p, s.len() as int);
}

/// When some character of `s` is outside `p`, the leading and trailing runs
/// leave a non-empty middle that starts and ends outside `p`.
proof fn lemma_some_mismatch(s: Seq<char>, p: spec_fn(char) -> bool)
    requires
        leading(s, p) < s.len(),
    ensures
        trailing(s, p) < s.len(),
        leading(s, p) + trailing(s, p) < s.len(),
        !p(s[leading(s, p) as int]),
        !p(s[s.len() - trailing(s, p) - 1]),
{
    lemma_leading_props(s, p);
    lemma_trailing_props(s, p);
    let l = leading(s, p) as int;
    if trailing(s, p) == s.len() {
        assert(p(s[l]));
    }
    if l >= s.len() - trailing(s, p) {
        assert(p(s[l]));
    }
}

/// Byte positions grow with character positions, strictly.
pub proof fn lemma_offset_mono(s: Seq<char>, i: int, j: int)
    requires
        0 <= i <= j <= s.len(),
    ensures
        byte_offset(s, i) <= byte_offset(s, j),
        i < j ==> byte_offset(s, i) < byte_offset(s, j),
    decreases j,
{
    if i < j {
        lemma_offset_mono(s, i, j - 1);
    }
}

/// A byte position at which character `k` starts lies between characters,
/// and `k` is its character position.
pub proof fn lemma_index_unique(s: Seq<char>, k: int, b: int)
    requires
        0 <= k <= s.len(),
        byte_offset(s, k) == b,
    ensures
        is_boundary(s, b),
        char_index(s, b) == k,
{
    assert(byte_offset(s, k) == b);
    let j = char_index(s, b);
    if j < k {
        lemma_offset_mono(s, j, k);
    } else if j > k {
        lemma_offset_mono(s, k, j);
    }
}

/// A run of characters of an ASCII-only predicate takes one byte each.
proof fn lemma_ascii_run(s: Seq<char>, p: spec_fn(char) -> bool, k: int, m: int)
    requires
        ascii_only(p),
        0 <= k <= m <= s.len(),
        forall|j: int| k <= j < m ==> #[trigger] p(s[j]),
    ensures
        byte_offset(s, m) == byte_offset(s, k) + (m - k),
    decreases m,
{
    if m > k {
        lemma_ascii_run(s, p, k, m - 1);
        assert(p(s[m - 1]));
    }
}

/// When only ASCII characters are removed, byte positions and character
/// positions of the runs agree: every trim has its slice, and it is the
/// trim by characters.
pub proof fn lemma_ascii_trims_agree(s: Seq<char>, p: spec_fn(char) -> bool)
    requires
        ascii_only(p),
    ensures
        str_trim_ok(s, p),
        str_trim(s, p) == spec_trim(s, p),
        str_trim_start_ok(s, p),
        str_trim_start(s, p) == spec_trim_start(s, p),
        str_trim_end_ok(s, p),
        str_trim_end(s, p) == spec_trim_end(s, p),
{
    lemma_leading_props(s, p);
    lemma_trailing_props(s, p);
    let n = s.len() as int;
    let l = leading(s, p) as int;
    let t = trailing(s, p) as int;
    lemma_ascii_run(s, p, 0, l);
    lemma_ascii_run(s, p, n - t, n);
    lemma_index_unique(s, l, l);
    lemma_index_unique(s, n - t, byte_len(s) - t);
    if l < n {
        lemma_some_mismatch(s, p);
        lemma_offset_mono(s, l, n - t);
    } else {
        lemma_all_match(s, p);
    }
}

/// By characters, trimming both ends is trimming the end, then the start.
proof fn lemma_chars_start_after_end(s: Seq<char>, p: spec_fn(char) -> bool)
    ensures
        spec_trim(s, p) == spec_trim_start(spec_trim_end(s, p), p),
{
    let n = s.len() as int;
    lemma_leading_props(s, p);
    if leading(s, p) == s.len() {
        lemma_all_match(s, p);
    } else {
        lemma_some_mismatch(s, p);
        lemma_leading_props(s, p);
        let l = leading(s, p) as int;
        let t = trailing(s, p) as int;
        let u = s.take(n - t);
        assert forall|j: int| 0 <= j < l implies #[trigger] p(u[j]) by {
            assert(u[j] == s[j]);
        }
        assert(u[l] == s[l]);
        lemma_leading_eq(u, p, l);
        assert(u.skip(l) =~= s.subrange(l, n - t));
    }
}

/// By characters, trimming both ends is trimming the start, then the end.
proof fn lemma_chars_end_after_start(s: Seq<char>, p: spec_fn(char) -> bool)
    ensures
        spec_trim(s, p) == spec_trim_end(spec_trim_start(s, p), p),
{
    let n = s.len() as int;
    lemma_leading_props(s, p);
    if leading(s, p) == s.len() {
        lemma_all_match(s, p);
    } else {
        lemma_some_mismatch(s, p);
        lemma_trailing_props(s, p);
        let l = leading(s, p) as int;
        let t = trailing(s, p) as int;
        let v = s.skip(l);
        assert forall|j: int| v.len() - t <= j < v.len() implies #[trigger] p(v[j]) by {
            assert(v[j] == s[j + l]);
        }
        assert(v[v.len() - t - 1] == s[n - t - 1]);
        lemma_trailing_eq(v, p, t);
        assert(v.take(v.len() - t) =~= s.subrange(l, n - t));
    }
}

/// By characters, trimming a trimmed string changes nothing.
proof fn lemma_chars_trim_idempotent(s: Seq<char>, p: spec_fn(char) -> bool)
    ensures
        spec_trim(spec_trim(s, p), p) == spec_trim(s, p),
{
    lemma_leading_props(s, p);
    if leading(s, p) < s.len() {
        lemma_some_mismatch(s, p);
        let n = s.len() as int;
        let l = leading(s, p) as int;
        let t = trailing(s, p) as int;
        let r = s.subrange(l, n - t);
        assert(r[0] == s[l]);
        assert(r[r.len() - 1] == s[n - t - 1]);
        lemma_leading_eq(r, p, 0);
        lemma_trailing_eq(r, p, 0);
        assert(r.subrange(0, r.len() as int) =~= r);
    }
}

/// When the removed characters are ASCII, trimming both ends is trimming
/// the end, then the start (each step having its slice).
pub proof fn law_trim_is_start_after_end(s: Seq<char>, p: spec_fn(char) -> bool)
    requires
        ascii_only(p),
    ensures
        str_trim_ok(s, p),
        str_trim_end_ok(s, p),
        str_trim_start_ok(str_trim_end(s, p), p),
        str_trim(s, p) == str_trim_start(str_trim_end(s, p), p),
{
    lemma_ascii_trims_agree(s, p);
    lemma_ascii_trims_agree(spec_trim_end(s, p), p);
    lemma_chars_start_after_end(s, p);
}

/// When the removed characters are ASCII, trimming both ends is trimming
/// the start, then the end (each step having its slice).
pub proof fn law_trim_is_end_after_start(s: Seq<char>, p: spec_fn(char) -> bool)
    requires
        ascii_only(p),
    ensures
        str_trim_ok(s, p),
        str_trim_start_ok(s, p),
        str_trim_end_ok(str_trim_start(s, p), p),
        str_trim(s, p) == str_trim_end(str_trim_start(s, p), p),
{
    lemma_ascii_trims_agree(s, p);
    lemma_ascii_trims_agree(spec_trim_start(s, p), p);
    lemma_chars_end_after_start(s, p);
}

/// When the removed characters are ASCII, trimming a trimmed string
/// changes nothing.
pub proof fn law_trim_idempotent(s: Seq<char>, p: spec_fn(char) -> bool)
    requires
        ascii_only(p),
    ensures
        str_trim_ok(s, p),
        str_trim_ok(str_trim(s, p), p),
        str_trim(str_trim(s, p), p) == str_trim(s, p),
{
    lemma_ascii_trims_agree(s, p);
    lemma_ascii_trims_agree(spec_trim(s, p), p);
    lemma_chars_trim_idempotent(s, p);
}

/// Trimming with a one-character set is trimming that character.
pub proof fn law_trim_many_of_one(s: Seq<char>, c: char)
    ensures
        str_trim_ok(s, in_set(seq![c])) == str_trim_ok(s, is_char(c)),
        str_trim(s, in_set(seq![c])) == str_trim(s, is_char(c)),
        str_trim_start_ok(s, in_set(seq![c])) == str_trim_start_ok(s, is_char(c)),
        str_trim_start(s, in_set(seq![c])) == str_trim_start(s, is_char(c)),
        str_trim_end_ok(s, in_set(seq![c])) == str_trim_end_ok(s, is_char(c)),
        str_trim_end(s, in_set(seq![c])) == str_trim_end(s, is_char(c)),
{
    assert forall|x: char| #[trigger] (in_set(seq![c]))(x) == (is_char(c))(x) by {
        if x == c {
            assert(seq![c][0] == c);
        }
    }
    assert(in_set(seq![c]) =~= is_char(c));
}

/// The result of `prefix` starts with the character, and prefixing it again
/// changes nothing; likewise `suffix` at the end.
pub proof fn law_affix(s: Seq<char>, c: char)
    ensures
        spec_prefix(s, c).len() > 0,
        spec_prefix(s, c)[0] == c,
        spec_prefix(spec_prefix(s, c), c) == spec_prefix(s, c),
        spec_suffix(s, c).len() > 0,
        spec_suffix(s, c).last() == c,
        spec_suffix(spec_suffix(s, c), c) == spec_suffix(s, c),
{
    if !(s.len() > 0 && s[0] == c) {
        assert((seq![c] + s)[0] == c);
    }
}

/// The characters a trim removes: one character, or any of a set.
pub enum Trimmed<'a> {
    One(char),
    Many(&'a [char]),
}

impl<'a> Trimmed<'a> {
    pub open spec fn pred(&self) -> spec_fn(char) -> bool {
        match self {
            Trimmed::One(c) => is_char(*c),
            Trimmed::Many(set) => in_set(set@),
        }
    }

    fn test(&self, c: char) -> (r: bool)
        ensures
            r == (self.pred())(c),
    {
        match self {
            Trimmed::One(x) => *x == c,
            Trimmed::Many(set) => contains_char(set, c),
        }
    }
}

/// Whether `c` is one of the characters of `set`.
fn contains_char(set: &[char], c: char) -> (r: bool)
    ensures
        r == set@.contains(c),
{
    let mut i: usize = 0;
    while i < set.len()
        invariant
            i <= set.len(),
            forall|j: int| 0 <= j < i ==> set@[j] != c,
        decreases set.len() - i,
    {
        if set[i] == c {
            assert(set@[i as int] == c);
            return true;
        }
        i = i + 1;
    }
    false
}

/// Counts the leading characters of `v` that `t` removes.
fn count_leading(v: &[char], t: &Trimmed) -> (r: usize)
    ensures
        r == leading(v@, t.pred()),
{
    let n = v.len();
    let mut i: usize = 0;
    while i < n
        invariant
            i <= n,
            n == v@.len(),
            forall|j: int| 0 <= j < i ==> #[trigger] (t.pred())(v@[j]),
        decreases n - i,
    {
        if !t.test(v[i]) {
            proof {
                lemma_leading_eq(v@, t.pred(), i as int);
            }
            return i;
        }
        i = i + 1;
    }
    proof {
        lemma_leading_eq(v@, t.pred(), n as int);
    }
    n
}

/// Counts the trailing characters of `v` that `t` removes.
fn count_trailing(v: &[char], t: &Trimmed) -> (r: usize)
    ensures
        r == trailing(v@, t.pred()),
{
    let n = v.len();
    let mut i: usize = 0;
    while i < n
        invariant
            i <= n,
            n == v@.len(),
            forall|j: int| n - i <= j < n ==> #[trigger] (t.pred())(v@[j]),
        decreases n - i,
    {
        if !t.test(v[n - 1 - i]) {
            proof {
                lemma_trailing_eq(v@, t.pred(), i as int);
            }
            return i;
        }
        i = i + 1;
    }
    proof {
        lemma_trailing_eq(v@, t.pred(), n as int);
    }
    n
}

/// The number of bytes that `c` takes in UTF-8.
fn char_len(c: char) -> (r: usize)
    ensures
        r == utf8_len(c),
{
    let u = c as u32;
    if u < 0x80 {
        1
    } else if u < 0x800 {
        2
    } else if u < 0x10000 {
        3
    } else {
        4
    }
}

/// The character position of `v` that starts at byte `b`, if any.
fn index_at_byte(v: &[char], b: usize) -> (r: Option<usize>)
    ensures
        match r {
            Some(k) => k <= v@.len() && byte_offset(v@, k as int) == b,
            None => !is_boundary(v@, b as int),
        },
{
    let n = v.len();
    let mut k: usize = 0;
    let mut off: usize = 0;
    while k < n && off < b
        invariant
            k <= n,
            n == v@.len(),
            off == byte_offset(v@, k as int),
            off <= b,
        decreases n - k,
    {
        let l = char_len(v[k]);
        if l > b - off {
            proof {
                assert forall|j: int| 0 <= j <= v@.len() implies #[trigger] byte_offset(v@, j) != b by {
                    if j <= k {
                        lemma_offset_mono(v@, j, k as int);
                    } else {
                        lemma_offset_mono(v@, k + 1, j);
                    }
                }
            }
            return None;
        }
        off = off + l;
        k = k + 1;
    }
    if off == b {
        Some(k)
    } else {
        proof {
            assert forall|j: int| 0 <= j <= v@.len() implies #[trigger] byte_offset(v@, j) != b by {
                lemma_offset_mono(v@, j, k as int);
            }
        }
        None
    }
}

/// The character position of `v` after which its last `t` bytes start, if
/// any.
fn index_before_tail(v: &[char], t: usize) -> (r: Option<usize>)
    ensures
        match r {
            Some(k) => k <= v@.len() && byte_offset(v@, k as int) == byte_len(v@) - t,
            None => !is_boundary(v@, byte_len(v@) - t),
        },
{
    let n = v.len();
    let mut k: usize = n;
    let mut acc: usize = 0;
    proof {
        lemma_offset_mono(v@, 0, n as int);
    }
    while k > 0 && acc < t
        invariant
            k <= n,
            n == v@.len(),
            acc == byte_len(v@) - byte_offset(v@, k as int),
            acc <= t,
        decreases k,
    {
        let l = char_len(v[k - 1]);
        if l > t - acc {
            proof {
                assert forall|j: int| 0 <= j <= v@.len() implies #[trigger] byte_offset(v@, j) != byte_len(v@) - t by {
                    if j >= k {
                        lemma_offset_mono(v@, k as int, j);
                    } else {
                        lemma_offset_mono(v@, j, k - 1);
                    }
                }
            }
            return None;
        }
        acc = acc + l;
        k = k - 1;
    }
    if acc == t {
        Some(k)
    } else {
        proof {
            assert forall|j: int| 0 <= j <= v@.len() implies #[trigger] byte_offset(v@, j) != byte_len(v@) - t by {
                lemma_offset_mono(v@, k as int, j);
            }
        }
        None
    }
}

fn trim_both<'s>(s: &'s str, t: &Trimmed) -> (r: &'s str)
    requires
        str_trim_ok(s@, t.pred()),
    ensures
        r@ == str_trim(s@, t.pred()),
{
    let v = chars_of(s);
    let n = v.len();
    let start = count_leading(v.as_slice(), t);
    if start == n {
        return s;
    }
    let end_run = count_trailing(v.as_slice(), t);
    let k1 = match index_at_byte(v.as_slice(), start) {
        Some(k) => k,
        None => return s,
    };
    let k2 = match index_before_tail(v.as_slice(), end_run) {
        Some(k) => k,
        None => return s,
    };
    proof {
        lemma_index_unique(s@, k1 as int, start as int);
        lemma_index_unique(s@, k2 as int, byte_len(s@) - end_run);
        if k1 > k2 {
            lemma_offset_mono(s@, k2 as int, k1 as int);
        }
    }
    s.substring_char(k1, k2)
}

fn trim_front<'s>(s: &'s str, t: &Trimmed) -> (r: &'s str)
    requires
        str_trim_start_ok(s@, t.pred()),
    ensures
        r@ == str_trim_start(s@, t.pred()),
{
    let v = chars_of(s);
    let n = v.len();
    let start = count_leading(v.as_slice(), t);
    if start == n {
        return s;
    }
    let k1 = match index_at_byte(v.as_slice(), start) {
        Some(k) => k,
        None => return s,
    };
    proof {
        lemma_index_unique(s@, k1 as int, start as int);
    }
    s.substring_char(k1, n)
}

fn trim_back<'s>(s: &'s str, t: &Trimmed) -> (r: &'s str)
    requires
        str_trim_end_ok(s@, t.pred()),
    ensures
        r@ == str_trim_end(s@, t.pred()),
{
    let v = chars_of(s);
    let n = v.len();
    let end_run = count_trailing(v.as_slice(), t);
    if end_run == n {
        return s;
    }
    let k2 = match index_before_tail(v.as_slice(), end_run) {
        Some(k) => k,
        None => return s,
    };
    proof {
        lemma_index_unique(s@, k2 as int, byte_len(s@) - end_run);
    }
    s.substring_char(0, k2)
}

/// Appends one character to `s` (`String::push`).
#[verifier::external_body]
pub(crate) fn push_char(s: &mut String, c: char)
    ensures
        final(s)@ == old(s)@.push(c),
{
    s.push(c);
}

/// Trimming and affixing helpers on string slices.
pub trait StringEx {
    spec fn chars_of(&self) -> Seq<char>;

    /// Removes the leading and trailing runs of `ch`; a string made only
    /// of `ch` comes back whole. The cut is made at byte positions: the
    /// length of the leading run in characters, and the byte length less
    /// that of the trailing run (see `str_trim`); for an ASCII `ch` these
    /// are exactly the runs, and the cut must lie between characters.
    fn trim(&self, ch: &char) -> (r: &str)
        requires
            str_trim_ok(self.chars_of(), is_char(*ch)),
        ensures
            r@ == str_trim(self.chars_of(), is_char(*ch)),
    ;

    /// Removes the leading run of `ch`; a string made only of `ch` comes
    /// back whole. The cut is made at the byte position that counts the run
    /// in characters (see `str_trim_start`).
    fn trim_start(&self, ch: &char) -> (r: &str)
        requires
            str_trim_start_ok(self.chars_of(), is_char(*ch)),
        ensures
            r@ == str_trim_start(self.chars_of(), is_char(*ch)),
    ;

    /// Removes the trailing run of `ch`; a string made only of `ch` comes
    /// back whole. The cut is made at the byte length less the run's length
    /// in characters (see `str_trim_end`).
    fn trim_end(&self, ch: &char) -> (r: &str)
        requires
            str_trim_end_ok(self.chars_of(), is_char(*ch)),
        ensures
            r@ == str_trim_end(self.chars_of(), is_char(*ch)),
    ;

    /// Removes the leading and trailing runs of characters of `ch`; a
    /// string made only of such characters comes back whole. The cut is
    /// made as `trim` makes it.
    fn trim_many(&self, ch: &[char]) -> (r: &str)
        requires
            str_trim_ok(self.chars_of(), in_set(ch@)),
        ensures
            r@ == str_trim(self.chars_of(), in_set(ch@)),
    ;

    /// Removes the leading run of characters of `ch`, cut as `trim_start`
    /// cuts it.
    fn trim_start_many(&self, ch: &[char]) -> (r: &str)
        requires
            str_trim_start_ok(self.chars_of(), in_set(ch@)),
        ensures
            r@ == str_trim_start(self.chars_of(), in_set(ch@)),
    ;

    /// Removes the trailing run of characters of `ch`, cut as `trim_end`
    /// cuts it.
    fn trim_end_many(&self, ch: &[char]) -> (r: &str)
        requires
            str_trim_end_ok(self.chars_of(), in_set(ch@)),
        ensures
            r@ == str_trim_end(self.chars_of(), in_set(ch@)),
    ;

    /// The string starting with `ch`, which is put in front when missing.
    fn prefix(&self, ch: char) -> (r: String)
        ensures
            r@ == spec_prefix(self.chars_of(), ch),
    ;

    /// The string ending with `ch`, which is put after it when missing.
    fn suffix(&self, ch: char) -> (r: String)
        ensures
            r@ == spec_suffix(self.chars_of(), ch),
    ;
}

impl StringEx for str {
    open spec fn chars_of(&self) -> Seq<char> {
        self@
    }

    fn trim(&self, ch: &char) -> (r: &str) {
        trim_both(self, &Trimmed::One(*ch))
    }

    fn trim_start(&self, ch: &char) -> (r: &str) {
        trim_front(self, &Trimmed::One(*ch))
    }

    fn trim_end(&self, ch: &char) -> (r: &str) {
        trim_back(self, &Trimmed::One(*ch))
    }

    fn trim_many(&self, ch: &[char]) -> (r: &str) {
        trim_both(self, &Trimmed::Many(ch))
    }

    fn trim_start_many(&self, ch: &[char]) -> (r: &str) {
        trim_front(self, &Trimmed::Many(ch))
    }

    fn trim_end_many(&self, ch: &[char]) -> (r: &str) {
        trim_back(self, &Trimmed::Many(ch))
    }

    fn prefix(&self, ch: char) -> (r: String) {
        let v = chars_of(self);
        if v.len() > 0 && v[0] == ch {
            self.to_owned()
        } else {
            let mut out = String::new();
            push_char(&mut out, ch);
            out.append(self);
            out
        }
    }

    fn suffix(&self, ch: char) -> (r: String) {
        let v = chars_of(self);
        let n = v.len();
        let mut out = self.to_owned();
        if !(n > 0 && v[n - 1] == ch) {
            push_char(&mut out, ch);
        }
        out
    }
}

} // verus!
