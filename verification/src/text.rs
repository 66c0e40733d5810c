use vstd::prelude::*;
use crate::string::{leading, trailing, lemma_leading_eq, lemma_trailing_eq, lemma_leading_props, lemma_trailing_props, push_char};

verus! {

/// The characters of `s`, in order.
pub fn chars_of(s: &str) -> (v: Vec<char>)
    ensures
        v@ == s@,
{
    let mut v: Vec<char> = Vec::new();
    for c in it: s.chars()
        invariant
            v@ == it.seq().take(it.index() as int),
    {
        v.push(c);
    }
    v
}

/// The string made of the characters `v[from..to]`.
pub fn string_of(v: &[char], from: usize, to: usize) -> (s: String)
    requires
        from <= to <= v@.len(),
    ensures
        s@ == v@.subrange(from as int, to as int),
{
    let mut s = String::new();
    let mut i = from;
    while i < to
        invariant
            from <= i <= to,
            to <= v@.len(),
            s@ == v@.subrange(from as int, i as int),
        decreases to - i,
    {
        push_char(&mut s, v[i]);
        assert(v@.subrange(from as int, i + 1) == v@.subrange(from as int, i as int).push(v@[i as int]));
        i = i + 1;
    }
    s
}

/// The characters `v[from..to]` as a vector.
pub fn slice_vec(v: &[char], from: usize, to: usize) -> (r: Vec<char>)
    requires
        from <= to <= v@.len(),
    ensures
        r@ == v@.subrange(from as int, to as int),
{
    let mut r: Vec<char> = Vec::new();
    let mut i = from;
    while i < to
        invariant
            from <= i <= to,
            to <= v@.len(),
            r@ == v@.subrange(from as int, i as int),
        decreases to - i,
    {
        r.push(v[i]);
        assert(v@.subrange(from as int, i + 1) == v@.subrange(from as int, i as int).push(v@[i as int]));
        i = i + 1;
    }
    r
}

/// `n` occurs in `h` starting at position `i`.
pub open spec fn occurs_at(h: Seq<char>, n: Seq<char>, i: int) -> bool {
    0 <= i && i + n.len() <= h.len() && h.subrange(i, i + n.len()) == n
}

/// `i` is the first position at which `n` occurs in `h`.
pub open spec fn first_at(h: Seq<char>, n: Seq<char>, i: int) -> bool {
    occurs_at(h, n, i) && forall|j: int| 0 <= j < i ==> !#[trigger] occurs_at(h, n, j)
}

/// `i` is the last position at which `n` occurs in `h`.
pub open spec fn last_at(h: Seq<char>, n: Seq<char>, i: int) -> bool {
    occurs_at(h, n, i) && forall|j: int| i < j ==> !#[trigger] occurs_at(h, n, j)
}

/// The position of the first occurrence of `n` in `h` (`str::find`).
pub open spec fn spec_find(h: Seq<char>, n: Seq<char>) -> Option<int> {
    if exists|i: int| #[trigger] first_at(h, n, i) {
        Some(choose|i: int| #[trigger] first_at(h, n, i))
    } else {
        None
    }
}

/// The position of the last occurrence of `n` in `h` (`str::rfind`).
pub open spec fn spec_rfind(h: Seq<char>, n: Seq<char>) -> Option<int> {
    if exists|i: int| #[trigger] last_at(h, n, i) {
        Some(choose|i: int| #[trigger] last_at(h, n, i))
    } else {
        None
    }
}

/// `n` occurs somewhere in `h` (`str::contains`).
pub open spec fn spec_contains(h: Seq<char>, n: Seq<char>) -> bool {
    exists|i: int| #[trigger] occurs_at(h, n, i)
}

pub open spec fn opt_int(r: Option<usize>) -> Option<int> {
    match r {
        Some(x) => Some(x as int),
        None => None,
    }
}

fn matches_at(h: &[char], n: &[char], i: usize) -> (r: bool)
    ensures
        r == occurs_at(h@, n@, i as int),
{
    if i > h.len() || n.len() > h.len() - i {
        return false;
    }
    let hl = h.len();
    let mut k: usize = 0;
    while k < n.len()
        invariant
            k <= n@.len(),
            hl == h@.len(),
            i + n@.len() <= h@.len(),
            forall|j: int| 0 <= j < k ==> h@[i + j] == n@[j],
        decreases n.len() - k,
    {
        if h[i + k] != n[k] {
            assert(h@.subrange(i as int, i + n@.len())[k as int] != n@[k as int]);
            return false;
        }
        k = k + 1;
    }
    assert(h@.subrange(i as int, i + n@.len()) =~= n@);
    true
}

/// The first position at which `n` occurs in `h`.
pub fn find(h: &[char], n: &[char]) -> (r: Option<usize>)
    ensures
        opt_int(r) == spec_find(h@, n@),
        r matches Some(i) ==> first_at(h@, n@, i as int),
        r is None ==> !spec_contains(h@, n@),
{
    if n.len() > h.len() {
        return None;
    }
    let limit = h.len() - n.len();
    let mut i: usize = 0;
    loop
        invariant
            i <= limit,
            limit == h@.len() - n@.len(),
            forall|j: int| 0 <= j < i ==> !#[trigger] occurs_at(h@, n@, j),
        decreases limit - i,
    {
        if matches_at(h, n, i) {
            assert(first_at(h@, n@, i as int));
            proof {
                let c = choose|c: int| #[trigger] first_at(h@, n@, c);
                assert(c == i) by {
                    if c < i {
                        assert(!occurs_at(h@, n@, c));
                    } else if c > i {
                        assert(!occurs_at(h@, n@, i as int));
                    }
                }
            }
            return Some(i);
        }
        if i == limit {
            assert forall|j: int| !#[trigger] occurs_at(h@, n@, j) by {
                if j > limit {
                }
            }
            return None;
        }
        i = i + 1;
    }
}

/// The last position at which `n` occurs in `h`.
pub fn rfind(h: &[char], n: &[char]) -> (r: Option<usize>)
    ensures
        opt_int(r) == spec_rfind(h@, n@),
        r matches Some(i) ==> last_at(h@, n@, i as int),
        r is None ==> !spec_contains(h@, n@),
{
    if n.len() > h.len() {
        return None;
    }
    let limit = h.len() - n.len();
    let mut i: usize = limit;
    loop
        invariant
            i <= limit,
            limit == h@.len() - n@.len(),
            forall|j: int| i < j ==> !#[trigger] occurs_at(h@, n@, j),
        decreases i,
    {
        if matches_at(h, n, i) {
            assert(last_at(h@, n@, i as int));
            proof {
                let c = choose|c: int| #[trigger] last_at(h@, n@, c);
                assert(c == i) by {
                    if c < i {
                        assert(!occurs_at(h@, n@, i as int));
                    } else if c > i {
                        assert(!occurs_at(h@, n@, c));
                    }
                }
            }
            return Some(i);
        }
        if i == 0 {
            assert forall|j: int| !#[trigger] occurs_at(h@, n@, j) by {
                if j < 0 {
                }
            }
            return None;
        }
        i = i - 1;
    }
}

/// Whether `n` occurs in `h`.
pub fn contains(h: &[char], n: &[char]) -> (r: bool)
    ensures
        r == spec_contains(h@, n@),
{
    match find(h, n) {
        Some(i) => true,
        None => false,
    }
}

/// Unicode `White_Space`, the property that `char::is_whitespace` tests.
pub open spec fn is_ws(c: char) -> bool {
    ||| '\t' <= c <= '\r'
    ||| c == ' '
    ||| c == '\u{85}'
    ||| c == '\u{a0}'
    ||| c == '\u{1680}'
    ||| '\u{2000}' <= c <= '\u{200a}'
    ||| c == '\u{2028}'
    ||| c == '\u{2029}'
    ||| c == '\u{202f}'
    ||| c == '\u{205f}'
    ||| c == '\u{3000}'
}

pub open spec fn ws() -> spec_fn(char) -> bool {
    |c: char| is_ws(c)
}

/// Whether `c` is whitespace.
pub fn is_whitespace(c: char) -> (r: bool)
    ensures
        r == is_ws(c),
{
    ('\t' <= c && c <= '\r') || c == ' ' || c == '\u{85}' || c == '\u{a0}' || c == '\u{1680}'
        || ('\u{2000}' <= c && c <= '\u{200a}') || c == '\u{2028}' || c == '\u{2029}'
        || c == '\u{202f}' || c == '\u{205f}' || c == '\u{3000}'
}

/// `s` without leading and trailing whitespace (`str::trim`).
pub open spec fn spec_ws_trim(s: Seq<char>) -> Seq<char> {
    if leading(s, ws()) == s.len() {
        Seq::empty()
    } else {
        s.subrange(leading(s, ws()) as int, s.len() - trailing(s, ws()))
    }
}

/// `v` without leading and trailing whitespace.
pub fn ws_trim(v: &[char]) -> (r: Vec<char>)
    ensures
        r@ == spec_ws_trim(v@),
{
    let n = v.len();
    let mut a: usize = 0;
    while a < n && is_whitespace(v[a])
        invariant
            a <= n,
            n == v@.len(),
            forall|j: int| 0 <= j < a ==> #[trigger] (ws())(v@[j]),
        decreases n - a,
    {
        a = a + 1;
    }
    proof {
        lemma_leading_eq(v@, ws(), a as int);
    }
    if a == n {
        return Vec::new();
    }
    let mut t: usize = 0;
    while t < n && is_whitespace(v[n - 1 - t])
        invariant
            t <= n,
            n == v@.len(),
            forall|j: int| n - t <= j < n ==> #[trigger] (ws())(v@[j]),
        decreases n - t,
    {
        t = t + 1;
    }
    proof {
        lemma_trailing_eq(v@, ws(), t as int);
        if a + t >= n {
            assert((ws())(v@[a as int]));
        }
    }
    slice_vec(v, a, n - t)
}

/// `c` is not a line feed.
pub open spec fn not_nl() -> spec_fn(char) -> bool {
    |c: char| c != '\n'
}

/// `s` without one trailing carriage return.
pub open spec fn strip_cr(s: Seq<char>) -> Seq<char> {
    if s.len() > 0 && s.last() == '\r' {
        s.drop_last()
    } else {
        s
    }
}

/// The lines of `s` (`str::lines`): split at line feeds, a carriage return
/// just before a line feed dropped, no empty line after a final line feed.
pub open spec fn spec_lines(s: Seq<char>) -> Seq<Seq<char>>
    decreases s.len(),
{
    if s.len() == 0 {
        Seq::empty()
    } else {
        let k = leading(s, not_nl());
        if k >= s.len() {
            seq![s]
        } else {
            seq![strip_cr(s.take(k as int))] + spec_lines(s.skip(k as int + 1))
        }
    }
}

fn strip_cr_vec(v: Vec<char>) -> (r: Vec<char>)
    ensures
        r@ == strip_cr(v@),
{
    let mut v = v;
    if v.len() > 0 && v[v.len() - 1] == '\r' {
        v.pop();
    }
    v
}

/// The character sequences held by a vector of character vectors.
pub open spec fn views(v: Seq<Vec<char>>) -> Seq<Seq<char>> {
    Seq::new(v.len(), |i: int| v[i]@)
}

/// The lines of `v`.
pub fn lines(v: &[char]) -> (r: Vec<Vec<char>>)
    ensures
        views(r@) == spec_lines(v@),
{
    let n = v.len();
    let mut out: Vec<Vec<char>> = Vec::new();
    let mut start: usize = 0;
    let mut i: usize = 0;
    assert(v@.skip(0) =~= v@);
    assert(views(out@) + spec_lines(v@) =~= spec_lines(v@));
    while i < n
        invariant
            start <= i <= n,
            n == v@.len(),
            spec_lines(v@) == views(out@) + spec_lines(v@.skip(start as int)),
            forall|j: int| start <= j < i ==> v@[j] != '\n',
        decreases n - i,
    {
        if v[i] == '\n' {
            let ghost rest = v@.skip(start as int);
            proof {
                assert forall|j: int| 0 <= j < i - start implies #[trigger] (not_nl())(rest[j]) by {
                    assert(rest[j] == v@[start + j]);
                }
                assert(rest[i - start] == v@[i as int]);
                lemma_leading_eq(rest, not_nl(), i - start);
                assert(rest.take(i - start) == v@.subrange(start as int, i as int));
                assert(rest.skip(i - start + 1) == v@.skip(i + 1));
            }
            let line = strip_cr_vec(slice_vec(v, start, i));
            let ghost before = views(out@);
            out.push(line);
            assert(views(out@) =~= before.push(line@));
            start = i + 1;
        }
        i = i + 1;
    }
    if start < n {
        let ghost rest = v@.skip(start as int);
        proof {
            assert forall|j: int| 0 <= j < rest.len() implies #[trigger] (not_nl())(rest[j]) by {
                assert(rest[j] == v@[start + j]);
            }
            lemma_leading_eq(rest, not_nl(), rest.len() as int);
        }
        let last = slice_vec(v, start, n);
        let ghost before = views(out@);
        out.push(last);
        assert(views(out@) =~= before.push(last@));
        assert(rest =~= last@);
    } else {
        assert(v@.skip(start as int) =~= Seq::<char>::empty());
    }
    out
}

} // verus!
