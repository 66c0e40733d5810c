use vstd::prelude::*;
use crate::vpn::string_views;

verus! {

/// The number of lines in a batch when none is given.
pub const LINES_BUFFER_DEFAULT: usize = 1000;

/// How a file is opened for writing.
#[derive(Debug, Default, Clone, Copy, PartialEq, Eq, PartialOrd, Ord, Hash)]
pub enum FileOpenOptions {
    #[default]
    Default,
    New,
    Truncate,
    Append,
}

/// The switches handed to `std::fs::OpenOptions`.
#[derive(Debug, Clone, Copy, PartialEq, Eq, Hash)]
pub struct OpenFlags {
    pub read: bool,
    pub write: bool,
    pub create: bool,
    pub create_new: bool,
    pub truncate: bool,
    pub append: bool,
}

impl FileOpenOptions {
    /// The switches for opening a file to write it: always readable and
    /// writable; a new file must not exist yet, a truncated one is created
    /// or emptied, and otherwise it is created or appended to.
    pub fn flags(self) -> (r: OpenFlags)
        ensures
            r.read && r.write,
            r.create_new == (self is New),
            r.create == !(self is New),
            r.truncate == (self is Truncate),
            r.append == (self is Default || self is Append),
    {
        match self {
            FileOpenOptions::New => OpenFlags { read: true, write: true, create: false, create_new: true, truncate: false, append: false },
            FileOpenOptions::Truncate => OpenFlags { read: true, write: true, create: true, create_new: false, truncate: true, append: false },
            _ => OpenFlags { read: true, write: true, create: true, create_new: false, truncate: false, append: true },
        }
    }
}

/// Whether `path` names an existing regular file (`Path::is_file`); what
/// is on disk decides, so the contract claims nothing of the result.
#[verifier::external_body]
fn path_is_file(path: &str) -> bool {
    std::path::Path::new(path).is_file()
}

/// Whether `path` names an existing regular file.
pub fn file_exists(path: &str) -> bool {
    path_is_file(path)
}

/// Gathers the lines of a file into batches of a fixed size, numbered from
/// 1. Empty lines are skipped; a full batch is handed out at once, and what
/// is left at the end makes one last, shorter batch.
pub struct LineBatcher {
    size: usize,
    number: u32,
    pending: Vec<String>,
    taken: Ghost<Seq<Seq<char>>>,
    batches: Ghost<Seq<Seq<Seq<char>>>>,
}

/// All the lines of the batches, in order.
pub open spec fn flatten(b: Seq<Seq<Seq<char>>>) -> Seq<Seq<char>>
    decreases b.len(),
{
    if b.len() == 0 {
        Seq::empty()
    } else {
        flatten(b.drop_last()) + b.last()
    }
}

/// A batcher as a value: the size of a full batch, the number of the last
/// batch handed out, the lines gathered since, and the batches handed out.
pub struct BatchState {
    pub size: nat,
    pub number: nat,
    pub pending: Seq<Seq<char>>,
    pub batches: Seq<Seq<Seq<char>>>,
}

/// What feeding one line does: an empty line changes nothing, a line that
/// fills the batch hands the batch out under the next number, and any other
/// line is gathered.
pub open spec fn feed(st: BatchState, line: Seq<char>) -> BatchState {
    if line.len() == 0 {
        st
    } else if st.pending.len() + 1 >= st.size {
        BatchState {
            number: st.number + 1,
            pending: Seq::empty(),
            batches: st.batches.push(st.pending.push(line)),
            ..st
        }
    } else {
        BatchState { pending: st.pending.push(line), ..st }
    }
}

/// Feeding the lines one after the other.
pub open spec fn feed_all(st: BatchState, lines: Seq<Seq<char>>) -> BatchState
    decreases lines.len(),
{
    if lines.len() == 0 {
        st
    } else {
        feed(feed_all(st, lines.drop_last()), lines.last())
    }
}

/// Feeding the lines one after the other with the filter's verdict on
/// each: a line the filter rejects is dropped.
pub open spec fn feed_filtered(st: BatchState, lines: Seq<Seq<char>>, keep: Seq<bool>) -> BatchState
    decreases lines.len(),
{
    if lines.len() == 0 {
        st
    } else {
        let before = feed_filtered(st, lines.drop_last(), keep.drop_last());
        if keep.last() {
            feed(before, lines.last())
        } else {
            before
        }
    }
}

/// The lines that the filter keeps, in order.
pub open spec fn kept(lines: Seq<Seq<char>>, keep: Seq<bool>) -> Seq<Seq<char>>
    decreases lines.len(),
{
    if lines.len() == 0 {
        Seq::empty()
    } else {
        let before = kept(lines.drop_last(), keep.drop_last());
        if keep.last() {
            before.push(lines.last())
        } else {
            before
        }
    }
}

/// Batching lines through a filter is batching the lines it keeps: after
/// any number of lines, the batches handed out, their numbers and the lines
/// gathered are the same.
pub proof fn law_filtered_batching(st: BatchState, lines: Seq<Seq<char>>, keep: Seq<bool>)
    requires
        lines.len() == keep.len(),
    ensures
        feed_filtered(st, lines, keep) == feed_all(st, kept(lines, keep)),
    decreases lines.len(),
{
    if lines.len() > 0 {
        law_filtered_batching(st, lines.drop_last(), keep.drop_last());
        if keep.last() {
            let k = kept(lines.drop_last(), keep.drop_last());
            assert(k.push(lines.last()).drop_last() =~= k);
        }
    }
}

impl LineBatcher {
    /// The size of a full batch.
    pub closed spec fn size(&self) -> nat {
        self.size as nat
    }

    /// The number of the last batch handed out (0 before the first).
    pub closed spec fn number(&self) -> nat {
        self.number as nat
    }

    /// The lines gathered since the last batch.
    pub closed spec fn pending(&self) -> Seq<Seq<char>> {
        string_views(self.pending@)
    }

    /// Every non-empty line taken so far.
    pub closed spec fn taken(&self) -> Seq<Seq<char>> {
        self.taken@
    }

    /// Every batch handed out so far.
    pub closed spec fn batches(&self) -> Seq<Seq<Seq<char>>> {
        self.batches@
    }

    /// The batcher as a value.
    pub open spec fn model(&self) -> BatchState {
        BatchState { size: self.size(), number: self.number(), pending: self.pending(), batches: self.batches() }
    }

    /// The batcher's invariant: the batches handed out and the pending
    /// lines are, in order, exactly the lines taken; every batch is full,
    /// the pending lines are fewer than a batch, and the batch number
    /// counts the batches.
    pub closed spec fn wf(&self) -> bool {
        &&& self.size > 0
        &&& flatten(self.batches@) + string_views(self.pending@) == self.taken@
        &&& forall|i: int| 0 <= i < self.batches@.len() ==> #[trigger] self.batches@[i].len() == self.size
        &&& self.pending@.len() < self.size
        &&& self.number == self.batches@.len()
    }

    /// A batcher for batches of `batch` lines (of the default size for 0).
    pub fn new(batch: usize) -> (r: Self)
        ensures
            r.wf(),
            r.size() == if batch == 0 { LINES_BUFFER_DEFAULT as nat } else { batch as nat },
            r.number() == 0,
            r.pending() == Seq::<Seq<char>>::empty(),
            r.taken() == Seq::<Seq<char>>::empty(),
            r.batches() == Seq::<Seq<Seq<char>>>::empty(),
    {
        let size = if batch == 0 { LINES_BUFFER_DEFAULT } else { batch };
        let r = LineBatcher {
            size,
            number: 0,
            pending: Vec::new(),
            taken: Ghost(Seq::empty()),
            batches: Ghost(Seq::empty()),
        };
        assert(string_views(r.pending@) =~= Seq::<Seq<char>>::empty());
        r
    }

    /// The number of the last batch handed out.
    pub fn batch_number(&self) -> (r: u32)
        ensures
            r == self.number(),
    {
        self.number
    }

    /// Takes one line read from the file. An empty line is skipped; a line
    /// that fills the batch hands the batch out with its number.
    pub fn push(&mut self, line: String) -> (r: Option<(u32, Vec<String>)>)
        requires
            old(self).wf(),
            old(self).number() < u32::MAX,
        ensures
            final(self).wf(),
            final(self).size() == old(self).size(),
            line@.len() == 0 ==> r is None && final(self).pending() == old(self).pending()
                && final(self).number() == old(self).number()
                && final(self).taken() == old(self).taken()
                && final(self).batches() == old(self).batches(),
            line@.len() > 0 ==> final(self).taken() == old(self).taken().push(line@),
            line@.len() > 0 && old(self).pending().len() + 1 < old(self).size() ==> r is None
                && final(self).pending() == old(self).pending().push(line@)
                && final(self).number() == old(self).number()
                && final(self).batches() == old(self).batches(),
            line@.len() > 0 && old(self).pending().len() + 1 == old(self).size() ==> (r matches Some((n, b))
                && n == old(self).number() + 1
                && string_views(b@) == old(self).pending().push(line@)
                && final(self).pending() == Seq::<Seq<char>>::empty()
                && final(self).number() == n
                && final(self).batches() == old(self).batches().push(string_views(b@))),
            final(self).model() == feed(old(self).model(), line@),
    {
        if line.as_str().is_empty() {
            return None;
        }
        let ghost old_pending = string_views(self.pending@);
        self.taken = Ghost(self.taken@.push(line@));
        self.pending.push(line);
        assert(string_views(self.pending@) =~= old_pending.push(line@));
        if self.pending.len() < self.size {
            return None;
        }
        self.number = self.number + 1;
        let mut full: Vec<String> = Vec::new();
        std::mem::swap(&mut full, &mut self.pending);
        self.batches = Ghost(self.batches@.push(string_views(full@)));
        assert(string_views(self.pending@) =~= Seq::<Seq<char>>::empty());
        assert(flatten(self.batches@) =~= flatten(self.batches@.drop_last()) + string_views(full@));
        assert(self.batches@.drop_last() =~= old(self).batches@);
        Some((self.number, full))
    }

    /// Takes one line read from the file together with the filter's
    /// verdict on it: a line the filter rejects is dropped, a kept one is
    /// taken as `push` takes it.
    pub fn push_filtered(&mut self, line: String, keep: bool) -> (r: Option<(u32, Vec<String>)>)
        requires
            old(self).wf(),
            old(self).number() < u32::MAX,
        ensures
            final(self).wf(),
            final(self).size() == old(self).size(),
            final(self).model() == if keep { feed(old(self).model(), line@) } else { old(self).model() },
            final(self).taken() == if keep && line@.len() > 0 { old(self).taken().push(line@) } else { old(self).taken() },
            r is Some <==> keep && line@.len() > 0 && old(self).pending().len() + 1 == old(self).size(),
            r matches Some((n, b)) ==> n == final(self).number()
                && final(self).batches() == old(self).batches().push(string_views(b@)),
    {
        if !keep {
            return None;
        }
        self.push(line)
    }

    /// Hands out the lines left after the last full batch as one more
    /// batch, or nothing when none are left.
    pub fn finish(&mut self) -> (r: Option<(u32, Vec<String>)>)
        requires
            old(self).wf(),
            old(self).number() < u32::MAX,
        ensures
            final(self).taken() == old(self).taken(),
            final(self).pending() == Seq::<Seq<char>>::empty(),
            old(self).pending().len() == 0 ==> r is None && final(self).number() == old(self).number()
                && final(self).batches() == old(self).batches(),
            old(self).pending().len() > 0 ==> (r matches Some((n, b))
                && n == old(self).number() + 1
                && string_views(b@) == old(self).pending()
                && final(self).number() == n
                && final(self).batches() == old(self).batches().push(string_views(b@))),
            flatten(final(self).batches()) == final(self).taken(),
    {
        if self.pending.len() == 0 {
            assert(string_views(self.pending@) =~= Seq::<Seq<char>>::empty());
            assert(flatten(self.batches@) + Seq::<Seq<char>>::empty() =~= flatten(self.batches@));
            return None;
        }
        self.number = self.number + 1;
        let mut rest: Vec<String> = Vec::new();
        std::mem::swap(&mut rest, &mut self.pending);
        self.batches = Ghost(self.batches@.push(string_views(rest@)));
        assert(string_views(self.pending@) =~= Seq::<Seq<char>>::empty());
        assert(self.batches@.drop_last() =~= old(self).batches@);
        assert(flatten(self.batches@) =~= flatten(old(self).batches@) + string_views(rest@));
        Some((self.number, rest))
    }
}

} // verus!
