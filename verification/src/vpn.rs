use vstd::prelude::*;
use vstd::utf8::{valid_utf8, decode_utf8};
use crate::error::{RmxError, ErrorView};
use crate::string::leading;
use crate::text::{
    chars_of, string_of, slice_vec, find, rfind, contains, ws_trim, lines, is_ws, views,
    spec_find, spec_rfind, spec_contains, spec_ws_trim, spec_lines, not_nl, first_at, last_at,
    occurs_at,
};
use crate::string::{lemma_leading_eq, lemma_leading_props};

verus! {

/// What a finished command left behind: its exit code (none when a signal
/// ended it) and the bytes it wrote to standard output and standard error.
#[derive(Debug, Clone, PartialEq, Eq)]
pub struct CommandOutput {
    pub code: Option<i32>,
    pub stdout: Vec<u8>,
    pub stderr: Vec<u8>,
}

/// The name of the VPN client's command.
pub const COMMAND: &'static str = "expressvpn";

/// The pattern whose matches the location cleaner turns into one tab.
pub const LOCATION_CLEAN: &'static str = "[\\s\\t]{2,}";

/// The text of the error for a version output without any digit.
pub const RESPONSE_ERROR: &'static str = "Invalid command response";

/// The text of the error for a location pattern that does not compile.
pub const PATTERN_ERROR: &'static str = "invalid location pattern";

/// The state of the VPN client.
#[derive(Debug, Default, Clone, PartialEq, Eq, PartialOrd, Ord, Hash)]
pub enum ExpressVPNStatus {
    #[default]
    Unknown,
    NotActivated,
    Connected(Option<String>),
    Disconnected,
    Error(String),
}

/// A status as a mathematical value.
pub enum StatusView {
    Unknown,
    NotActivated,
    Connected(Option<Seq<char>>),
    Disconnected,
    Error(Seq<char>),
}

impl View for ExpressVPNStatus {
    type V = StatusView;

    open spec fn view(&self) -> StatusView {
        match self {
            ExpressVPNStatus::Unknown => StatusView::Unknown,
            ExpressVPNStatus::NotActivated => StatusView::NotActivated,
            ExpressVPNStatus::Connected(None) => StatusView::Connected(None),
            ExpressVPNStatus::Connected(Some(s)) => StatusView::Connected(Some(s@)),
            ExpressVPNStatus::Disconnected => StatusView::Disconnected,
            ExpressVPNStatus::Error(s) => StatusView::Error(s@),
        }
    }
}

pub open spec fn view_status(r: Result<ExpressVPNStatus, RmxError>) -> Result<StatusView, ErrorView> {
    match r {
        Ok(s) => Ok(s@),
        Err(e) => Err(e@),
    }
}

pub open spec fn view_unit(r: Result<(), RmxError>) -> Result<(), ErrorView> {
    match r {
        Ok(_) => Ok(()),
        Err(e) => Err(e@),
    }
}

/// The views of a vector of strings.
pub open spec fn string_views(v: Seq<String>) -> Seq<Seq<char>> {
    Seq::new(v.len(), |i: int| v[i]@)
}

pub open spec fn view_list(r: Result<Vec<String>, RmxError>) -> Result<Seq<Seq<char>>, ErrorView> {
    match r {
        Ok(v) => Ok(string_views(v@)),
        Err(e) => Err(e@),
    }
}

/// The characters that `bytes` encode in UTF-8, or the error for bytes that
/// are not UTF-8.
pub open spec fn spec_utf8(bytes: Seq<u8>) -> Result<Seq<char>, ErrorView> {
    if valid_utf8(bytes) {
        Ok(decode_utf8(bytes))
    } else {
        Err(ErrorView::External(utf8_error_text(bytes)))
    }
}

/// The error for a command that failed with `code`, carrying what it wrote
/// to standard error.
pub open spec fn spec_failure(code: i32, stderr: Seq<u8>) -> ErrorView {
    match spec_utf8(stderr) {
        Ok(t) => ErrorView::Command(code, t),
        Err(e) => e,
    }
}

/// A command succeeded when it exited with code 0.
pub open spec fn spec_checked(out: CommandOutput) -> Result<(), ErrorView> {
    match out.code {
        None => Err(spec_failure(-1i32, out.stderr@)),
        Some(c) => if c != 0 {
            Err(spec_failure(c, out.stderr@))
        } else {
            Ok(())
        },
    }
}

/// The standard output of a command that succeeded.
pub open spec fn spec_stdout(out: CommandOutput) -> Result<Seq<char>, ErrorView> {
    match spec_checked(out) {
        Err(e) => Err(e),
        Ok(_) => spec_utf8(out.stdout@),
    }
}

/// `c` is not an ASCII decimal digit.
pub open spec fn not_digit() -> spec_fn(char) -> bool {
    |c: char| !('0' <= c <= '9')
}

/// The version that `expressvpn --version` printed: from its first digit on.
pub open spec fn spec_version(out: CommandOutput) -> Result<Seq<char>, ErrorView> {
    match spec_stdout(out) {
        Err(e) => Err(e),
        Ok(t) => if leading(t, not_digit()) >= t.len() {
            Err(ErrorView::Invalid(RESPONSE_ERROR@))
        } else {
            Ok(spec_ws_trim(t.skip(leading(t, not_digit()) as int)))
        },
    }
}

/// The line of `t` that starts at `n`. When no line feed follows, the
/// client's output is read up to `n` plus the length of all of `t`, which
/// only fits when `n` is 0 (the other cases have no line: `None`).
pub open spec fn line_at(t: Seq<char>, n: int) -> Option<Seq<char>> {
    let rest = t.skip(n);
    let k = leading(rest, not_nl());
    let l = if k < rest.len() { k as int } else { t.len() as int };
    if n + l <= t.len() {
        Some(t.subrange(n, n + l))
    } else {
        None
    }
}

/// The status that the trimmed output `t` of `expressvpn status` tells;
/// `None` for output that has no readable "Connected to" line.
pub open spec fn spec_status_of(t: Seq<char>) -> Option<Result<StatusView, ErrorView>> {
    if spec_contains(t, "Not Activated"@) {
        Some(Ok(StatusView::NotActivated))
    } else if spec_contains(t, "Not connected"@) {
        Some(Ok(StatusView::Disconnected))
    } else {
        match spec_find(t, "Connected to"@) {
            Some(n) => match line_at(t, n) {
                Some(line) => Some(Ok(StatusView::Connected(Some(line)))),
                None => None,
            },
            None => if spec_contains(t, "connected"@) {
                Some(Ok(StatusView::Connected(None)))
            } else if spec_contains(t, "error"@) || spec_contains(t, "Oops!"@) || spec_contains(t, "problem"@) {
                Some(Ok(StatusView::Error(t)))
            } else {
                Some(Err(ErrorView::Invalid(t)))
            },
        }
    }
}

/// What `expressvpn status` reports.
pub open spec fn spec_status(out: CommandOutput) -> Option<Result<StatusView, ErrorView>> {
    match spec_stdout(out) {
        Err(e) => Some(Err(e)),
        Ok(t) => spec_status_of(spec_ws_trim(t)),
    }
}

/// What the trimmed output `t` of `expressvpn connect` tells.
pub open spec fn spec_connect_of(t: Seq<char>) -> Option<Result<StatusView, ErrorView>> {
    match spec_find(t, "Connected to"@) {
        Some(n) => match line_at(t, n) {
            Some(line) => Some(Ok(StatusView::Connected(Some(line)))),
            None => None,
        },
        None => if spec_contains(t, "Canceled"@) {
            Some(Err(ErrorView::Canceled))
        } else if spec_contains(t, "unexpectedly"@) {
            Some(Err(ErrorView::Network(t)))
        } else {
            Some(Err(ErrorView::Invalid(t)))
        },
    }
}

/// What `expressvpn connect` reports.
pub open spec fn spec_connected(out: CommandOutput) -> Option<Result<StatusView, ErrorView>> {
    match spec_stdout(out) {
        Err(e) => Some(Err(e)),
        Ok(t) => spec_connect_of(spec_ws_trim(t)),
    }
}

/// What `expressvpn disconnect` reports: a failed command still counts as
/// disconnected when its error output says so.
pub open spec fn spec_disconnect(out: CommandOutput) -> Result<StatusView, ErrorView> {
    match out.code {
        None => Err(spec_failure(-1i32, out.stderr@)),
        Some(c) => if c != 0 {
            match spec_utf8(out.stderr@) {
                Err(e) => Err(e),
                Ok(m) => if spec_contains(m, "Disconnected"@) {
                    Ok(StatusView::Disconnected)
                } else {
                    Err(ErrorView::Command(c, m))
                },
            }
        } else {
            match spec_utf8(out.stdout@) {
                Err(e) => Err(e),
                Ok(t) => if spec_contains(spec_ws_trim(t), "Disconnected"@) {
                    Ok(StatusView::Disconnected)
                } else {
                    Err(ErrorView::Invalid(spec_ws_trim(t)))
                },
            }
        },
    }
}

/// The arguments of the connect command: the target when one is given.
pub open spec fn spec_connect_args(target: Seq<char>) -> Seq<Seq<char>> {
    if target.len() == 0 {
        seq!["connect"@]
    } else {
        seq!["connect"@, target]
    }
}

/// Connecting to an empty target is connecting to the default location.
pub proof fn law_empty_target(v: Seq<char>)
    ensures
        v.len() == 0 ==> spec_connect_args(v) == spec_connect_args(Seq::empty()),
        spec_connect_args(Seq::empty()) == seq!["connect"@],
        v.len() > 0 ==> spec_connect_args(v).last() == v,
{
}

/// What a command printed: its output decoded and trimmed of whitespace.
pub open spec fn printed(bytes: Seq<u8>) -> Seq<char> {
    spec_ws_trim(decode_utf8(bytes))
}

/// A text that does not hold `n` has no first position of it.
proof fn lemma_find_none(h: Seq<char>, n: Seq<char>)
    requires
        !spec_contains(h, n),
    ensures
        spec_find(h, n) is None,
{
    if exists|i: int| #[trigger] first_at(h, n, i) {
        let i = choose|i: int| #[trigger] first_at(h, n, i);
        assert(occurs_at(h, n, i));
    }
}

/// The first position of `n` in `h` is the one that `spec_find` gives.
proof fn lemma_find_first(h: Seq<char>, n: Seq<char>, i: int)
    requires
        first_at(h, n, i),
    ensures
        spec_find(h, n) == Some(i),
{
    let j = choose|j: int| #[trigger] first_at(h, n, j);
    assert(first_at(h, n, j));
    if j < i {
        assert(occurs_at(h, n, j));
    } else if j > i {
        assert(occurs_at(h, n, i));
    }
}

/// A status output that says the client is not activated reads as not
/// activated, whatever else it says.
pub proof fn law_status_not_activated(out: CommandOutput)
    requires
        out.code == Some(0i32),
        valid_utf8(out.stdout@),
        spec_contains(printed(out.stdout@), "Not Activated"@),
    ensures
        spec_status(out) == Some(Ok::<StatusView, ErrorView>(StatusView::NotActivated)),
{
}

/// A status output that says "Not connected" (and not "Not Activated")
/// reads as disconnected.
pub proof fn law_status_not_connected(out: CommandOutput)
    requires
        out.code == Some(0i32),
        valid_utf8(out.stdout@),
        !spec_contains(printed(out.stdout@), "Not Activated"@),
        spec_contains(printed(out.stdout@), "Not connected"@),
    ensures
        spec_status(out) == Some(Ok::<StatusView, ErrorView>(StatusView::Disconnected)),
{
}

/// A status output whose first "Connected to" is followed, later on, by a
/// line feed reads as connected, with the text from "Connected to" up to
/// that line feed; so does one that starts with "Connected to" and holds no
/// line feed, with all of the text.
pub proof fn law_status_connected_to(out: CommandOutput, n: int, m: int)
    requires
        out.code == Some(0i32),
        valid_utf8(out.stdout@),
        !spec_contains(printed(out.stdout@), "Not Activated"@),
        !spec_contains(printed(out.stdout@), "Not connected"@),
        first_at(printed(out.stdout@), "Connected to"@, n),
        n < m <= printed(out.stdout@).len(),
        m < printed(out.stdout@).len() ==> printed(out.stdout@)[m] == '\n',
        m == printed(out.stdout@).len() ==> n == 0,
        forall|j: int| n <= j < m ==> printed(out.stdout@)[j] != '\n',
    ensures
        spec_status(out) == Some(Ok::<StatusView, ErrorView>(StatusView::Connected(Some(printed(out.stdout@).subrange(n, m))))),
        spec_connected(out) == Some(Ok::<StatusView, ErrorView>(StatusView::Connected(Some(printed(out.stdout@).subrange(n, m))))),
{
    let t = printed(out.stdout@);
    lemma_find_first(t, "Connected to"@, n);
    let rest = t.skip(n);
    assert forall|j: int| 0 <= j < m - n implies #[trigger] (not_nl())(rest[j]) by {
        assert(rest[j] == t[n + j]);
    }
    if m < t.len() {
        assert(rest[m - n] == t[m]);
    }
    lemma_leading_eq(rest, not_nl(), m - n);
}

/// A status output that mentions being connected but has no "Connected to"
/// reads as connected to an unknown location.
pub proof fn law_status_connected_somewhere(out: CommandOutput)
    requires
        out.code == Some(0i32),
        valid_utf8(out.stdout@),
        !spec_contains(printed(out.stdout@), "Not Activated"@),
        !spec_contains(printed(out.stdout@), "Not connected"@),
        !spec_contains(printed(out.stdout@), "Connected to"@),
        spec_contains(printed(out.stdout@), "connected"@),
    ensures
        spec_status(out) == Some(Ok::<StatusView, ErrorView>(StatusView::Connected(None))),
{
    lemma_find_none(printed(out.stdout@), "Connected to"@);
}

/// A status output that reports an error, an "Oops!" or a problem, and no
/// activation or connection state, is an error status carrying the output,
/// not an invalid response.
pub proof fn law_status_error_report(out: CommandOutput)
    requires
        out.code == Some(0i32),
        valid_utf8(out.stdout@),
        !spec_contains(printed(out.stdout@), "Not Activated"@),
        !spec_contains(printed(out.stdout@), "Not connected"@),
        !spec_contains(printed(out.stdout@), "Connected to"@),
        !spec_contains(printed(out.stdout@), "connected"@),
        spec_contains(printed(out.stdout@), "error"@)
            || spec_contains(printed(out.stdout@), "Oops!"@)
            || spec_contains(printed(out.stdout@), "problem"@),
    ensures
        spec_status(out) == Some(Ok::<StatusView, ErrorView>(StatusView::Error(printed(out.stdout@)))),
{
    lemma_find_none(printed(out.stdout@), "Connected to"@);
}

/// A status output that says none of these things is an invalid response
/// carrying the output.
pub proof fn law_status_unknown(out: CommandOutput)
    requires
        out.code == Some(0i32),
        valid_utf8(out.stdout@),
        !spec_contains(printed(out.stdout@), "Not Activated"@),
        !spec_contains(printed(out.stdout@), "Not connected"@),
        !spec_contains(printed(out.stdout@), "Connected to"@),
        !spec_contains(printed(out.stdout@), "connected"@),
        !spec_contains(printed(out.stdout@), "error"@),
        !spec_contains(printed(out.stdout@), "Oops!"@),
        !spec_contains(printed(out.stdout@), "problem"@),
    ensures
        spec_status(out) == Some(Err::<StatusView, ErrorView>(ErrorView::Invalid(printed(out.stdout@)))),
{
    lemma_find_none(printed(out.stdout@), "Connected to"@);
}

/// A connect output without "Connected to" reports a cancellation when it
/// says "Canceled", a network failure carrying the output when it says
/// "unexpectedly", and an invalid response carrying the output otherwise.
pub proof fn law_connect_failures(out: CommandOutput)
    requires
        out.code == Some(0i32),
        valid_utf8(out.stdout@),
        !spec_contains(printed(out.stdout@), "Connected to"@),
    ensures
        spec_contains(printed(out.stdout@), "Canceled"@)
            ==> spec_connected(out) == Some(Err::<StatusView, ErrorView>(ErrorView::Canceled)),
        !spec_contains(printed(out.stdout@), "Canceled"@) && spec_contains(printed(out.stdout@), "unexpectedly"@)
            ==> spec_connected(out) == Some(Err::<StatusView, ErrorView>(ErrorView::Network(printed(out.stdout@)))),
        !spec_contains(printed(out.stdout@), "Canceled"@) && !spec_contains(printed(out.stdout@), "unexpectedly"@)
            ==> spec_connected(out) == Some(Err::<StatusView, ErrorView>(ErrorView::Invalid(printed(out.stdout@)))),
{
    lemma_find_none(printed(out.stdout@), "Connected to"@);
}

/// A disconnect that exited with 0 reports disconnected exactly when its
/// output says "Disconnected" at any position, and else is an invalid
/// response carrying the output.
pub proof fn law_disconnect_succeeded(out: CommandOutput, i: int)
    requires
        out.code == Some(0i32),
        valid_utf8(out.stdout@),
    ensures
        occurs_at(printed(out.stdout@), "Disconnected"@, i)
            ==> spec_disconnect(out) == Ok::<StatusView, ErrorView>(StatusView::Disconnected),
        !spec_contains(printed(out.stdout@), "Disconnected"@)
            ==> spec_disconnect(out) == Err::<StatusView, ErrorView>(ErrorView::Invalid(printed(out.stdout@))),
{
}

/// A disconnect that failed with code `c` still reports disconnected when
/// its error output says "Disconnected" at any position, and else is a
/// command error carrying the code and that output.
pub proof fn law_disconnect_failed(out: CommandOutput, c: i32, i: int)
    requires
        out.code == Some(c),
        c != 0,
        valid_utf8(out.stderr@),
    ensures
        occurs_at(decode_utf8(out.stderr@), "Disconnected"@, i)
            ==> spec_disconnect(out) == Ok::<StatusView, ErrorView>(StatusView::Disconnected),
        !spec_contains(decode_utf8(out.stderr@), "Disconnected"@)
            ==> spec_disconnect(out) == Err::<StatusView, ErrorView>(ErrorView::Command(c, decode_utf8(out.stderr@))),
{
}

/// `s` with its first space turned into a tab.
pub open spec fn first_space_to_tab(s: Seq<char>) -> Seq<char> {
    match spec_find(s, seq![' ']) {
        Some(i) => s.update(i, '\t'),
        None => s,
    }
}

/// Every match of `pattern` in `haystack` replaced by `replacement`, as the
/// `regex` crate does it, for a `pattern` that compiles.
pub uninterp spec fn regex_replace_all(pattern: Seq<char>, haystack: Seq<char>, replacement: Seq<char>) -> Seq<char>;

/// Whether the `regex` crate compiles `pattern`.
pub uninterp spec fn regex_compiles(pattern: Seq<char>) -> bool;

/// A compiled regular expression together with its source.
pub struct Pattern {
    source: String,
    compiled: regex::Regex,
}

#[verifier::external_type_specification]
#[verifier::external_body]
pub struct ExRegex(regex::Regex);

impl Pattern {
    pub closed spec fn source(&self) -> Seq<char> {
        self.source@
    }
}

/// Compiles `pattern` with `regex::Regex::new`; the contract claims that it
/// succeeds exactly for the patterns that the name `regex_compiles` holds of.
#[verifier::external_body]
fn compile_pattern(pattern: &str) -> (r: Option<Pattern>)
    ensures
        r is Some <==> regex_compiles(pattern@),
        r matches Some(p) ==> p.source() == pattern@,
{
    match regex::Regex::new(pattern) {
        Ok(re) => Some(Pattern { source: pattern.to_owned(), compiled: re }),
        Err(_) => None,
    }
}

/// Replaces every match of the pattern in `haystack` (`Regex::replace_all`);
/// the contract claims only that the result is what the name
/// `regex_replace_all` gives for the pattern's source and the two texts.
#[verifier::external_body]
fn replace_all(p: &Pattern, haystack: &str, replacement: &str) -> (r: String)
    ensures
        r@ == regex_replace_all(p.source(), haystack@, replacement@),
{
    p.compiled.replace_all(haystack, replacement).into_owned()
}

/// The text of the error that `String::from_utf8` reports for `bytes`.
pub uninterp spec fn utf8_error_text(bytes: Seq<u8>) -> Seq<char>;

/// Decodes UTF-8 (`String::from_utf8`): the bytes decode exactly when they
/// are UTF-8, and then to the characters they encode; otherwise the result
/// is the text of the error, which the contract only names.
#[verifier::external_body]
fn utf8_text(bytes: &Vec<u8>) -> (r: Result<String, String>)
    ensures
        r is Ok <==> valid_utf8(bytes@),
        r matches Ok(s) ==> s@ == decode_utf8(bytes@),
        r matches Err(m) ==> m@ == utf8_error_text(bytes@),
{
    match String::from_utf8(bytes.clone()) {
        Ok(s) => Ok(s),
        Err(e) => Err(e.to_string()),
    }
}

/// One location line of the client's list, cleaned.
pub open spec fn spec_clean_location(source: Seq<char>, loc: Seq<char>) -> Seq<char> {
    if loc.len() == 0 {
        loc
    } else {
        spec_ws_trim(regex_replace_all(source, first_space_to_tab(loc), "\t"@))
    }
}

/// The non-empty lines, each cleaned.
pub open spec fn spec_clean_all(source: Seq<char>, ls: Seq<Seq<char>>) -> Seq<Seq<char>>
    decreases ls.len(),
{
    if ls.len() == 0 {
        Seq::empty()
    } else if ls[0].len() == 0 {
        spec_clean_all(source, ls.drop_first())
    } else {
        seq![spec_clean_location(source, ls[0])] + spec_clean_all(source, ls.drop_first())
    }
}

pub open spec fn opt_pos(r: Option<int>, default: int) -> int {
    match r {
        Some(i) => i,
        None => default,
    }
}

/// The part of the `list` output that holds the locations: between the
/// last "--" and the last "Type ", trimmed; `None` when these two are out
/// of order.
pub open spec fn locations_body(t: Seq<char>) -> Option<Seq<char>> {
    let n = opt_pos(spec_rfind(t, "--"@), 0);
    let l = opt_pos(spec_rfind(t, "Type "@), t.len() as int);
    if n > 0 || l < t.len() {
        if n + 2 <= l {
            Some(spec_ws_trim(t.subrange(n + 2, l)))
        } else {
            None
        }
    } else {
        Some(t)
    }
}

/// The part of the `list all` output that holds the locations: after the
/// last "--", trimmed.
pub open spec fn all_locations_body(t: Seq<char>) -> Seq<char> {
    let n = opt_pos(spec_rfind(t, "--"@), 0);
    if n > 0 {
        spec_ws_trim(t.skip(n + 2))
    } else {
        t
    }
}

/// What `expressvpn list` reports; `None` for a list whose markers are out
/// of order.
pub open spec fn spec_locations(out: CommandOutput) -> Option<Result<Seq<Seq<char>>, ErrorView>> {
    if !regex_compiles(LOCATION_CLEAN@) {
        Some(Err(ErrorView::Invalid(PATTERN_ERROR@)))
    } else {
        match spec_stdout(out) {
            Err(e) => Some(Err(e)),
            Ok(t) => match locations_body(t) {
                None => None,
                Some(b) => Some(Ok(spec_clean_all(LOCATION_CLEAN@, spec_lines(b)))),
            },
        }
    }
}

/// What `expressvpn list all` reports.
pub open spec fn spec_all_locations(out: CommandOutput) -> Result<Seq<Seq<char>>, ErrorView> {
    if !regex_compiles(LOCATION_CLEAN@) {
        Err(ErrorView::Invalid(PATTERN_ERROR@))
    } else {
        match spec_stdout(out) {
            Err(e) => Err(e),
            Ok(t) => Ok(spec_clean_all(LOCATION_CLEAN@, spec_lines(all_locations_body(t)))),
        }
    }
}

fn text_of(bytes: &Vec<u8>) -> (r: Result<Vec<char>, RmxError>)
    ensures
        match r {
            Ok(v) => spec_utf8(bytes@) == Ok::<Seq<char>, ErrorView>(v@),
            Err(e) => spec_utf8(bytes@) == Err::<Seq<char>, ErrorView>(e@),
        },
{
    match utf8_text(bytes) {
        Ok(s) => Ok(chars_of(s.as_str())),
        Err(m) => Err(RmxError::External(m)),
    }
}

fn failure(code: i32, stderr: &Vec<u8>) -> (e: RmxError)
    ensures
        e@ == spec_failure(code, stderr@),
{
    match utf8_text(stderr) {
        Ok(s) => RmxError::Command(code, s),
        Err(m) => RmxError::External(m),
    }
}

/// Whether a command succeeded; the error of one that did not.
pub fn checked(out: &CommandOutput) -> (r: Result<(), RmxError>)
    ensures
        view_unit(r) == spec_checked(*out),
{
    match out.code {
        None => Err(failure(-1, &out.stderr)),
        Some(c) => if c != 0 {
            Err(failure(c, &out.stderr))
        } else {
            Ok(())
        },
    }
}

fn stdout_text(out: &CommandOutput) -> (r: Result<Vec<char>, RmxError>)
    ensures
        match r {
            Ok(v) => spec_stdout(*out) == Ok::<Seq<char>, ErrorView>(v@),
            Err(e) => spec_stdout(*out) == Err::<Seq<char>, ErrorView>(e@),
        },
{
    match checked(out) {
        Err(e) => Err(e),
        Ok(_) => text_of(&out.stdout),
    }
}

fn has(t: &Vec<char>, needle: &str) -> (r: bool)
    ensures
        r == spec_contains(t@, needle@),
{
    let n = chars_of(needle);
    contains(t.as_slice(), n.as_slice())
}

fn line_from(t: &Vec<char>, n: usize) -> (r: Option<String>)
    requires
        n <= t@.len(),
    ensures
        match r {
            Some(s) => line_at(t@, n as int) == Some(s@),
            None => line_at(t@, n as int) is None,
        },
{
    let len = t.len();
    let ghost rest = t@.skip(n as int);
    let mut k: usize = n;
    while k < len && t[k] != '\n'
        invariant
            n <= k <= len,
            len == t@.len(),
            rest == t@.skip(n as int),
            forall|j: int| n <= j < k ==> t@[j] != '\n',
        decreases len - k,
    {
        k = k + 1;
    }
    proof {
        assert forall|j: int| 0 <= j < k - n implies #[trigger] (not_nl())(rest[j]) by {
            assert(rest[j] == t@[n + j]);
        }
        if k < len {
            assert(rest[k - n] == t@[k as int]);
        }
        lemma_leading_eq(rest, not_nl(), k - n);
    }
    let l = if k < len { k - n } else { len };
    if l > len - n {
        return None;
    }
    Some(string_of(t.as_slice(), n, n + l))
}

fn status_of(t: &Vec<char>) -> (r: Option<Result<ExpressVPNStatus, RmxError>>)
    ensures
        match r {
            Some(x) => spec_status_of(t@) == Some(view_status(x)),
            None => spec_status_of(t@) is None,
        },
{
    assert(t@.subrange(0, t@.len() as int) =~= t@);
    if has(t, "Not Activated") {
        return Some(Ok(ExpressVPNStatus::NotActivated));
    }
    if has(t, "Not connected") {
        return Some(Ok(ExpressVPNStatus::Disconnected));
    }
    let marker = chars_of("Connected to");
    match find(t.as_slice(), marker.as_slice()) {
        Some(n) => match line_from(t, n) {
            Some(line) => Some(Ok(ExpressVPNStatus::Connected(Some(line)))),
            None => None,
        },
        None => {
            if has(t, "connected") {
                Some(Ok(ExpressVPNStatus::Connected(None)))
            } else if has(t, "error") || has(t, "Oops!") || has(t, "problem") {
                Some(Ok(ExpressVPNStatus::Error(string_of(t.as_slice(), 0, t.len()))))
            } else {
                Some(Err(RmxError::Invalid(string_of(t.as_slice(), 0, t.len()))))
            }
        },
    }
}

fn connect_of(t: &Vec<char>) -> (r: Option<Result<ExpressVPNStatus, RmxError>>)
    ensures
        match r {
            Some(x) => spec_connect_of(t@) == Some(view_status(x)),
            None => spec_connect_of(t@) is None,
        },
{
    assert(t@.subrange(0, t@.len() as int) =~= t@);
    let marker = chars_of("Connected to");
    match find(t.as_slice(), marker.as_slice()) {
        Some(n) => match line_from(t, n) {
            Some(line) => Some(Ok(ExpressVPNStatus::Connected(Some(line)))),
            None => None,
        },
        None => {
            if has(t, "Canceled") {
                Some(Err(RmxError::Canceled))
            } else if has(t, "unexpectedly") {
                Some(Err(RmxError::Network(string_of(t.as_slice(), 0, t.len()))))
            } else {
                Some(Err(RmxError::Invalid(string_of(t.as_slice(), 0, t.len()))))
            }
        },
    }
}

fn trimmed(t: &Vec<char>) -> (r: Vec<char>)
    ensures
        r@ == spec_ws_trim(t@),
{
    ws_trim(t.as_slice())
}

fn text_string(t: &Vec<char>) -> (r: String)
    ensures
        r@ == t@,
{
    assert(t@.subrange(0, t@.len() as int) =~= t@);
    string_of(t.as_slice(), 0, t.len())
}

fn strings_view_push(v: &mut Vec<String>, s: String)
    ensures
        string_views(final(v)@) == string_views(old(v)@).push(s@),
{
    let ghost before = string_views(v@);
    v.push(s);
    assert(string_views(v@) =~= before.push(s@));
}

/// The argument list of a command, as owned strings.
fn args_of(a: &str, b: Option<&str>) -> (r: Vec<String>)
    ensures
        b is None ==> string_views(r@) == seq![a@],
        b matches Some(x) ==> string_views(r@) == seq![a@, x@],
{
    let mut r: Vec<String> = Vec::new();
    strings_view_push(&mut r, a.to_owned());
    match b {
        Some(x) => strings_view_push(&mut r, x.to_owned()),
        None => {},
    }
    assert(string_views(r@) =~= if b is None { seq![a@] } else { seq![a@, b->0@] });
    r
}

/// The client of the ExpressVPN command-line tool. Running the command is
/// left to the caller; these methods choose its arguments and read what it
/// printed.
#[derive(Debug)]
pub struct ExpressVPN;

impl ExpressVPN {
    /// The installed version, read from the output of `expressvpn --version`.
    pub fn version(&self, output: &CommandOutput) -> (r: Result<String, RmxError>)
        ensures
            crate::error::view_text(r) == spec_version(*output),
    {
        let t = match stdout_text(output) {
            Err(e) => return Err(e),
            Ok(t) => t,
        };
        let n = t.len();
        let mut i: usize = 0;
        while i < n && !('0' <= t[i] && t[i] <= '9')
            invariant
                i <= n,
                n == t@.len(),
                forall|j: int| 0 <= j < i ==> #[trigger] (not_digit())(t@[j]),
            decreases n - i,
        {
            i = i + 1;
        }
        proof {
            lemma_leading_eq(t@, not_digit(), i as int);
        }
        if i == n {
            return Err(RmxError::Invalid(RESPONSE_ERROR.to_owned()));
        }
        let rest = slice_vec(t.as_slice(), i, n);
        assert(rest@ =~= t@.skip(i as int));
        Ok(text_string(&trimmed(&rest)))
    }

    /// Whether the output of `expressvpn status` can be read; it cannot
    /// when a "Connected to" line past the start has no line feed after it.
    pub fn status_is_readable(&self, output: &CommandOutput) -> (r: bool)
        ensures
            r == spec_status(*output) is Some,
    {
        match stdout_text(output) {
            Err(_) => true,
            Ok(t) => status_of(&trimmed(&t)).is_some(),
        }
    }

    /// The state that the output of `expressvpn status` reports.
    pub fn status(&self, output: &CommandOutput) -> (r: Result<ExpressVPNStatus, RmxError>)
        requires
            spec_status(*output) is Some,
        ensures
            spec_status(*output) == Some(view_status(r)),
    {
        match stdout_text(output) {
            Err(e) => Err(e),
            Ok(t) => match status_of(&trimmed(&t)) {
                Some(x) => x,
                None => Err(RmxError::Canceled),
            },
        }
    }

    /// The arguments of the connect command that follows a disconnect, or
    /// the error of that disconnect.
    pub fn connect(&self, disconnected: Result<ExpressVPNStatus, RmxError>) -> (r: Result<Vec<String>, RmxError>)
        ensures
            match disconnected {
                Err(e) => view_list(r) == Err::<Seq<Seq<char>>, ErrorView>(e@),
                Ok(_) => view_list(r) == Ok::<Seq<Seq<char>>, ErrorView>(spec_connect_args(Seq::empty())),
            },
    {
        match disconnected {
            Err(e) => Err(e),
            Ok(_) => Ok(args_of("connect", None)),
        }
    }

    /// The arguments of the command that connects to `value` (to the
    /// default location when `value` is empty) after a disconnect, or the
    /// error of that disconnect.
    pub fn connect_target(&self, value: &str, disconnected: Result<ExpressVPNStatus, RmxError>) -> (r: Result<Vec<String>, RmxError>)
        ensures
            match disconnected {
                Err(e) => view_list(r) == Err::<Seq<Seq<char>>, ErrorView>(e@),
                Ok(_) => view_list(r) == Ok::<Seq<Seq<char>>, ErrorView>(spec_connect_args(value@)),
            },
    {
        match disconnected {
            Err(e) => Err(e),
            Ok(_) => if value.is_empty() {
                Ok(args_of("connect", None))
            } else {
                Ok(args_of("connect", Some(value)))
            },
        }
    }

    /// Whether the output of `expressvpn connect` can be read.
    pub fn connected_is_readable(&self, output: &CommandOutput) -> (r: bool)
        ensures
            r == spec_connected(*output) is Some,
    {
        match stdout_text(output) {
            Err(_) => true,
            Ok(t) => connect_of(&trimmed(&t)).is_some(),
        }
    }

    /// The state that the output of `expressvpn connect` reports.
    pub fn connected(&self, output: &CommandOutput) -> (r: Result<ExpressVPNStatus, RmxError>)
        requires
            spec_connected(*output) is Some,
        ensures
            spec_connected(*output) == Some(view_status(r)),
    {
        match stdout_text(output) {
            Err(e) => Err(e),
            Ok(t) => match connect_of(&trimmed(&t)) {
                Some(x) => x,
                None => Err(RmxError::Canceled),
            },
        }
    }

    /// The state that the output of `expressvpn disconnect` reports.
    pub fn disconnect(&self, output: &CommandOutput) -> (r: Result<ExpressVPNStatus, RmxError>)
        ensures
            view_status(r) == spec_disconnect(*output),
    {
        match output.code {
            None => Err(failure(-1, &output.stderr)),
            Some(c) => if c != 0 {
                match text_of(&output.stderr) {
                    Err(e) => Err(e),
                    Ok(m) => if has(&m, "Disconnected") {
                        Ok(ExpressVPNStatus::Disconnected)
                    } else {
                        Err(RmxError::Command(c, text_string(&m)))
                    },
                }
            } else {
                match text_of(&output.stdout) {
                    Err(e) => Err(e),
                    Ok(t) => {
                        let t = trimmed(&t);
                        if has(&t, "Disconnected") {
                            Ok(ExpressVPNStatus::Disconnected)
                        } else {
                            Err(RmxError::Invalid(text_string(&t)))
                        }
                    },
                }
            },
        }
    }

    /// The compiled pattern that the location cleaner uses; `None` when it
    /// does not compile.
    pub fn location_pattern(&self) -> (r: Option<Pattern>)
        ensures
            r is Some <==> regex_compiles(LOCATION_CLEAN@),
            r matches Some(p) ==> p.source() == LOCATION_CLEAN@,
    {
        compile_pattern(LOCATION_CLEAN)
    }

    /// One line of the location list with its first space turned into a
    /// tab, every match of `pattern` turned into a tab, and trimmed.
    pub fn clean_location(&self, pattern: &Pattern, location: &str) -> (r: String)
        ensures
            r@ == spec_clean_location(pattern.source(), location@),
    {
        if location.is_empty() {
            return location.to_owned();
        }
        let mut v = chars_of(location);
        let space = vec![' '];
        assert(space@ =~= seq![' ']);
        match find(v.as_slice(), space.as_slice()) {
            Some(i) => {
                assert(occurs_at(v@, seq![' '], i as int));
                v.set(i, '\t');
            },
            None => {},
        }
        let replaced = replace_all(pattern, text_string(&v).as_str(), "\t");
        let cleaned = trimmed(&chars_of(replaced.as_str()));
        text_string(&cleaned)
    }

    fn clean_all(&self, pattern: &Pattern, ls: &Vec<Vec<char>>) -> (r: Vec<String>)
        ensures
            string_views(r@) == spec_clean_all(pattern.source(), views(ls@)),
    {
        let ghost src = pattern.source();
        let ghost all = views(ls@);
        let mut out: Vec<String> = Vec::new();
        let mut i: usize = 0;
        assert(all.skip(0) =~= all);
        assert(string_views(out@) + spec_clean_all(src, all) =~= spec_clean_all(src, all));
        while i < ls.len()
            invariant
                i <= ls@.len(),
                all == views(ls@),
                src == pattern.source(),
                spec_clean_all(src, all) == string_views(out@) + spec_clean_all(src, all.skip(i as int)),
            decreases ls.len() - i,
        {
            let ghost before = string_views(out@);
            assert(all.skip(i as int).drop_first() =~= all.skip(i + 1));
            assert(all.skip(i as int)[0] == ls@[i as int]@);
            if ls[i].len() > 0 {
                let line = text_string(&ls[i]);
                let c = self.clean_location(pattern, line.as_str());
                strings_view_push(&mut out, c);
                assert(before.push(c@) + spec_clean_all(src, all.skip(i + 1)) =~= before + (seq![c@] + spec_clean_all(src, all.skip(i + 1))));
            }
            i = i + 1;
        }
        assert(all.skip(i as int) =~= Seq::<Seq<char>>::empty());
        assert(string_views(out@) + Seq::<Seq<char>>::empty() =~= string_views(out@));
        out
    }

    /// Whether the output of `expressvpn list` can be read; it cannot when
    /// its last "Type " stands before the end of its last "--".
    pub fn locations_are_readable(&self, output: &CommandOutput) -> (r: bool)
        ensures
            r == spec_locations(*output) is Some,
    {
        match compile_pattern(LOCATION_CLEAN) {
            None => true,
            Some(_) => match stdout_text(output) {
                Err(_) => true,
                Ok(t) => locations_slice(&t).is_some(),
            },
        }
    }

    /// The locations that the output of `expressvpn list` names, one
    /// cleaned line each.
    pub fn locations(&self, output: &CommandOutput) -> (r: Result<Vec<String>, RmxError>)
        requires
            spec_locations(*output) is Some,
        ensures
            spec_locations(*output) == Some(view_list(r)),
    {
        let pattern = match compile_pattern(LOCATION_CLEAN) {
            None => return Err(RmxError::Invalid(PATTERN_ERROR.to_owned())),
            Some(p) => p,
        };
        let t = match stdout_text(output) {
            Err(e) => return Err(e),
            Ok(t) => t,
        };
        match locations_slice(&t) {
            None => Err(RmxError::Canceled),
            Some(b) => {
                let ls = lines(b.as_slice());
                Ok(self.clean_all(&pattern, &ls))
            },
        }
    }

    /// The locations that the output of `expressvpn list` names, or `None`
    /// for a list that cannot be read.
    pub fn try_locations(&self, output: &CommandOutput) -> (r: Option<Result<Vec<String>, RmxError>>)
        ensures
            match r {
                Some(x) => spec_locations(*output) == Some(view_list(x)),
                None => spec_locations(*output) is None,
            },
    {
        if self.locations_are_readable(output) {
            Some(self.locations(output))
        } else {
            None
        }
    }

    /// The locations that the output of `expressvpn list all` names, one
    /// cleaned line each.
    pub fn all_locations(&self, output: &CommandOutput) -> (r: Result<Vec<String>, RmxError>)
        ensures
            spec_all_locations(*output) == view_list(r),
    {
        let pattern = match compile_pattern(LOCATION_CLEAN) {
            None => return Err(RmxError::Invalid(PATTERN_ERROR.to_owned())),
            Some(p) => p,
        };
        let t = match stdout_text(output) {
            Err(e) => return Err(e),
            Ok(t) => t,
        };
        let dashes = chars_of("--");
        proof {
            reveal_strlit("--");
        }
        let n: usize = match rfind(t.as_slice(), dashes.as_slice()) {
            Some(i) => {
                assert(dashes@.len() == 2);
                assert(occurs_at(t@, dashes@, i as int));
                i
            },
            None => 0,
        };
        let tl = t.len();
        assert(n > 0 ==> n + 2 <= tl);
        let body = if n > 0 {
            trimmed(&slice_vec(t.as_slice(), n + 2, tl))
        } else {
            t
        };
        proof {
            if n > 0 {
                assert(t@.subrange(n + 2, t@.len() as int) =~= t@.skip(n + 2));
            }
        }
        let ls = lines(body.as_slice());
        Ok(self.clean_all(&pattern, &ls))
    }

    /// Whether `expressvpn refresh` succeeded.
    pub fn refresh(&self, output: &CommandOutput) -> (r: Result<(), RmxError>)
        ensures
            view_unit(r) == spec_checked(*output),
    {
        checked(output)
    }

    /// The arguments that switch the network lock on or off.
    pub fn network_lock_args(&self, enable: bool) -> (r: Vec<String>)
        ensures
            string_views(r@) == seq!["preferences"@, "set"@, "network_lock"@, if enable { "on"@ } else { "off"@ }],
    {
        let mut r: Vec<String> = Vec::new();
        strings_view_push(&mut r, "preferences".to_owned());
        strings_view_push(&mut r, "set".to_owned());
        strings_view_push(&mut r, "network_lock".to_owned());
        strings_view_push(&mut r, (if enable { "on" } else { "off" }).to_owned());
        assert(string_views(r@) =~= seq!["preferences"@, "set"@, "network_lock"@, if enable { "on"@ } else { "off"@ }]);
        r
    }

    /// Whether switching the network lock succeeded.
    pub fn network_lock(&self, output: &CommandOutput) -> (r: Result<(), RmxError>)
        ensures
            view_unit(r) == spec_checked(*output),
    {
        checked(output)
    }

    /// The arguments that switch tracker blocking on or off.
    pub fn block_trackers_args(&self, enable: bool) -> (r: Vec<String>)
        ensures
            string_views(r@) == seq!["preferences"@, "set"@, "block_trackers"@, if enable { "true"@ } else { "false"@ }],
    {
        let mut r: Vec<String> = Vec::new();
        strings_view_push(&mut r, "preferences".to_owned());
        strings_view_push(&mut r, "set".to_owned());
        strings_view_push(&mut r, "block_trackers".to_owned());
        strings_view_push(&mut r, (if enable { "true" } else { "false" }).to_owned());
        assert(string_views(r@) =~= seq!["preferences"@, "set"@, "block_trackers"@, if enable { "true"@ } else { "false"@ }]);
        r
    }

    /// Whether switching tracker blocking succeeded.
    pub fn block_trackers(&self, output: &CommandOutput) -> (r: Result<(), RmxError>)
        ensures
            view_unit(r) == spec_checked(*output),
    {
        checked(output)
    }
}

fn locations_slice(t: &Vec<char>) -> (r: Option<Vec<char>>)
    ensures
        match r {
            Some(b) => locations_body(t@) == Some(b@),
            None => locations_body(t@) is None,
        },
{
    let dashes = chars_of("--");
    let kind = chars_of("Type ");
    let n: usize = match rfind(t.as_slice(), dashes.as_slice()) {
        Some(i) => i,
        None => 0,
    };
    let l: usize = match rfind(t.as_slice(), kind.as_slice()) {
        Some(i) => i,
        None => t.len(),
    };
    if n > 0 || l < t.len() {
        if n <= l && l - n >= 2 {
            Some(trimmed(&slice_vec(t.as_slice(), n + 2, l)))
        } else {
            None
        }
    } else {
        Some(slice_vec(t.as_slice(), 0, t.len()))
    }
}

} // verus!
