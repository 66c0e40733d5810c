use vstd::prelude::*;
use crate::error::{RmxError, ErrorView};
use crate::text::chars_of;

verus! {

/// The text of the error for an empty source path.
pub const EMPTY_SOURCE: &'static str = "Empty source path";

/// How a copy or move finds what it acts on.
#[derive(Debug, Clone, Copy, PartialEq, Eq)]
pub enum TransferMode {
    /// The source is a pattern: every match is copied or moved.
    Wildcard,
    /// The source is one file or directory.
    Path,
}

/// `s` holds a '*' or a '?'.
pub open spec fn has_wildcard(s: Seq<char>) -> bool {
    exists|i: int| 0 <= i < s.len() && (s[i] == '*' || s[i] == '?')
}

/// How to copy or move `from`: an empty source is refused, one with '*'
/// or '?' is a pattern, anything else a path.
pub fn transfer_mode(from: &str) -> (r: Result<TransferMode, RmxError>)
    ensures
        from@.len() == 0 ==> (r matches Err(e) && e@ == ErrorView::InvalidOperation(EMPTY_SOURCE@)),
        from@.len() > 0 && has_wildcard(from@) ==> r == Ok::<TransferMode, RmxError>(TransferMode::Wildcard),
        from@.len() > 0 && !has_wildcard(from@) ==> r == Ok::<TransferMode, RmxError>(TransferMode::Path),
{
    if from.is_empty() {
        return Err(RmxError::InvalidOperation(EMPTY_SOURCE.to_owned()));
    }
    let v = chars_of(from);
    let mut i: usize = 0;
    while i < v.len()
        invariant
            i <= v@.len(),
            v@ == from@,
            forall|j: int| 0 <= j < i ==> v@[j] != '*' && v@[j] != '?',
        decreases v.len() - i,
    {
        if v[i] == '*' || v[i] == '?' {
            return Ok(TransferMode::Wildcard);
        }
        i = i + 1;
    }
    Ok(TransferMode::Path)
}

/// The pattern that deletes the matches of `pattern` inside the directory
/// `path`: `None` when `path` is no directory and no file (nothing to do),
/// an error when it is a file or when the pattern is empty.
pub fn del_match_pattern(path: &str, is_dir: bool, is_file: bool, pattern: &str) -> (r: Result<Option<String>, RmxError>)
    ensures
        !is_dir && is_file ==> (r matches Err(e) && e@ == ErrorView::Invalid(path@)),
        !is_dir && !is_file ==> r matches Ok(None),
        is_dir && pattern@.len() == 0 ==> (r matches Err(e) && e@ == ErrorView::InvalidOperation(EMPTY_SOURCE@)),
        is_dir && pattern@.len() > 0 ==> (r matches Ok(Some(p)) && p@ == path@ + "/"@ + pattern@),
{
    if !is_dir {
        if is_file {
            return Err(RmxError::Invalid(path.to_owned()));
        }
        return Ok(None);
    }
    if pattern.is_empty() {
        return Err(RmxError::InvalidOperation(EMPTY_SOURCE.to_owned()));
    }
    let mut p = path.to_owned();
    p.append("/");
    p.append(pattern);
    Ok(Some(p))
}

/// Whether a directory listing goes ahead: a directory is listed, a path
/// that exists but is no directory gives nothing (`false`), and a path
/// that does not exist is not found.
pub fn list_check(path: &str, is_dir: bool, exists_on_disk: bool) -> (r: Result<bool, RmxError>)
    ensures
        is_dir ==> r == Ok::<bool, RmxError>(true),
        !is_dir && exists_on_disk ==> r == Ok::<bool, RmxError>(false),
        !is_dir && !exists_on_disk ==> (r matches Err(e) && e@ == ErrorView::NotFound(path@)),
{
    if !is_dir {
        if !exists_on_disk {
            return Err(RmxError::NotFound(path.to_owned()));
        }
        return Ok(false);
    }
    Ok(true)
}

/// The views of a vector of string slices.
pub open spec fn str_views(v: Seq<&str>) -> Seq<Seq<char>> {
    Seq::new(v.len(), |i: int| v[i]@)
}

/// The non-empty parts, in order.
pub open spec fn non_empty(parts: Seq<Seq<char>>) -> Seq<Seq<char>>
    decreases parts.len(),
{
    if parts.len() == 0 {
        Seq::empty()
    } else if parts.last().len() == 0 {
        non_empty(parts.drop_last())
    } else {
        non_empty(parts.drop_last()).push(parts.last())
    }
}

/// The parts of a path that are joined: the empty ones are left out.
pub fn path_parts<'a>(parts: &Vec<&'a str>) -> (r: Vec<&'a str>)
    ensures
        str_views(r@) == non_empty(str_views(parts@)),
{
    let mut r: Vec<&'a str> = Vec::new();
    let mut i: usize = 0;
    while i < parts.len()
        invariant
            i <= parts@.len(),
            str_views(r@) == non_empty(str_views(parts@.take(i as int))),
        decreases parts.len() - i,
    {
        let p = parts[i];
        assert(str_views(parts@.take(i + 1)).drop_last() =~= str_views(parts@.take(i as int)));
        assert(str_views(parts@.take(i + 1)).last() == p@);
        if !p.is_empty() {
            let ghost before = str_views(r@);
            r.push(p);
            assert(str_views(r@) =~= before.push(p@));
        }
        i = i + 1;
    }
    assert(parts@.take(parts@.len() as int) =~= parts@);
    r
}

/// What `Path::new(p).parent()` gives, as text.
pub uninterp spec fn path_parent(p: Seq<char>) -> Option<Seq<char>>;

/// What `Path::new(p).file_stem()` gives, as text.
pub uninterp spec fn path_file_stem(p: Seq<char>) -> Option<Seq<char>>;

/// What `Path::new(p).extension()` gives, as text.
pub uninterp spec fn path_extension(p: Seq<char>) -> Option<Seq<char>>;

/// What `Path::new(base).join(name)` gives, as text.
pub uninterp spec fn path_join(base: Seq<char>, name: Seq<char>) -> Seq<char>;

/// The folder of `path` (`Path::parent`), as text.
#[verifier::external_body]
pub(crate) fn parent_of(path: &str) -> (r: Option<String>)
    ensures
        match r {
            Some(s) => path_parent(path@) == Some(s@),
            None => path_parent(path@) is None,
        },
{
    match std::path::Path::new(path).parent() {
        Some(p) => Some(p.to_string_lossy().into_owned()),
        None => None,
    }
}

/// The name of `path` without its extension (`Path::file_stem`), as text.
#[verifier::external_body]
pub(crate) fn file_stem_of(path: &str) -> (r: Option<String>)
    ensures
        match r {
            Some(s) => path_file_stem(path@) == Some(s@),
            None => path_file_stem(path@) is None,
        },
{
    match std::path::Path::new(path).file_stem() {
        Some(p) => Some(p.to_string_lossy().into_owned()),
        None => None,
    }
}

/// The extension of `path` (`Path::extension`), as text.
#[verifier::external_body]
pub(crate) fn extension_of(path: &str) -> (r: Option<String>)
    ensures
        match r {
            Some(s) => path_extension(path@) == Some(s@),
            None => path_extension(path@) is None,
        },
{
    match std::path::Path::new(path).extension() {
        Some(p) => Some(p.to_string_lossy().into_owned()),
        None => None,
    }
}

/// `name` inside the folder `base` (`Path::join`), as text.
#[verifier::external_body]
pub(crate) fn join_path(base: &str, name: &str) -> (r: String)
    ensures
        r@ == path_join(base@, name@),
{
    std::path::Path::new(base).join(name).to_string_lossy().into_owned()
}

/// What `Path::new(p).file_name()` gives, as text.
pub uninterp spec fn path_file_name(p: Seq<char>) -> Option<Seq<char>>;

/// The last part of `path` (`Path::file_name`), as text.
#[verifier::external_body]
fn file_name_of(path: &str) -> (r: Option<String>)
    ensures
        match r {
            Some(s) => path_file_name(path@) == Some(s@),
            None => path_file_name(path@) is None,
        },
{
    match std::path::Path::new(path).file_name() {
        Some(p) => Some(p.to_string_lossy().into_owned()),
        None => None,
    }
}

/// The text of a path part that may be missing: empty when it is.
pub open spec fn or_empty(p: Option<Seq<char>>) -> Seq<char> {
    match p {
        Some(s) => s,
        None => Seq::empty(),
    }
}

fn unwrap_text(p: Option<String>) -> (r: String)
    ensures
        r@ == or_empty(match p { Some(s) => Some(s@), None => None }),
{
    match p {
        Some(s) => s,
        None => String::new(),
    }
}

/// The folder of `path`; empty when it has none.
pub fn parent(path: &str) -> (r: String)
    ensures
        r@ == or_empty(path_parent(path@)),
{
    unwrap_text(parent_of(path))
}

/// The last part of `path`; empty when it has none.
pub fn name(path: &str) -> (r: String)
    ensures
        r@ == or_empty(path_file_name(path@)),
{
    unwrap_text(file_name_of(path))
}

/// The last part of `path` without its extension; empty when it has none.
pub fn base_name(path: &str) -> (r: String)
    ensures
        r@ == or_empty(path_file_stem(path@)),
{
    unwrap_text(file_stem_of(path))
}

/// The extension of `path`; empty when it has none.
pub fn extension(path: &str) -> (r: String)
    ensures
        r@ == or_empty(path_extension(path@)),
{
    unwrap_text(extension_of(path))
}

/// The parts joined one after the other, each pushed onto the path built
/// so far.
pub open spec fn join_all(parts: Seq<Seq<char>>) -> Seq<char>
    decreases parts.len(),
{
    if parts.len() == 0 {
        Seq::empty()
    } else {
        path_join(join_all(parts.drop_last()), parts.last())
    }
}

/// The path made of the non-empty parts, joined in order.
pub fn as_path(parts: &Vec<&str>) -> (r: String)
    ensures
        r@ == join_all(non_empty(str_views(parts@))),
{
    let kept = path_parts(parts);
    let mut r = String::new();
    let mut i: usize = 0;
    while i < kept.len()
        invariant
            i <= kept@.len(),
            r@ == join_all(str_views(kept@).take(i as int)),
        decreases kept.len() - i,
    {
        assert(str_views(kept@).take(i + 1).drop_last() =~= str_views(kept@).take(i as int));
        assert(str_views(kept@).take(i + 1).last() == kept@[i as int]@);
        r = join_path(r.as_str(), kept[i]);
        i = i + 1;
    }
    assert(str_views(kept@).take(kept@.len() as int) =~= str_views(kept@));
    r
}


/// What `std::path::is_separator(c)` gives.
pub uninterp spec fn path_separator(c: char) -> bool;

/// Whether `c` separates the parts of a path (`std::path::is_separator`).
#[verifier::external_body]
fn is_separator(c: char) -> (r: bool)
    ensures
        r == path_separator(c),
{
    std::path::is_separator(c)
}

/// Whether `path` holds a path separator.
pub fn has_separator(path: &str) -> (r: bool)
    ensures
        r == exists|i: int| 0 <= i < path@.len() && path_separator(#[trigger] path@[i]),
{
    let v = chars_of(path);
    let mut i: usize = 0;
    while i < v.len()
        invariant
            i <= v@.len(),
            v@ == path@,
            forall|j: int| 0 <= j < i ==> !path_separator(#[trigger] path@[j]),
        decreases v.len() - i,
    {
        if is_separator(v[i]) {
            return true;
        }
        i = i + 1;
    }
    false
}

} // verus!
