//! A trust store held in memory.
//!
//! It answers the requests of a bootstrap as a directory on disk would, and
//! so serves dry runs and tests. It is also the model against which the
//! rules of the trust store are stated: what a safe write does to a store,
//! and what it leaves alone.

use vstd::prelude::*;
use crate::bytes::{copy_bytes, same_text};
use crate::error::TrustError;
use crate::protocol::{Reply, ReplyView, Request, RequestView};

verus! {

/// The files that a list of writes leaves behind: each write puts its
/// contents at its path, and a later write to the same path wins.
spec fn spec_files(writes: Seq<(String, Vec<u8>)>) -> Map<Seq<char>, Seq<u8>>
    decreases writes.len(),
{
    if writes.len() == 0 {
        Map::empty()
    } else {
        spec_files(writes.drop_last()).insert(writes.last().0@, writes.last().1@)
    }
}

/// A path holds a file exactly when some write went to it.
proof fn lemma_files_domain(writes: Seq<(String, Vec<u8>)>, path: Seq<char>)
    ensures
        spec_files(writes).contains_key(path) <==> exists|i: int|
            0 <= i < writes.len() && (#[trigger] writes[i]).0@ == path,
    decreases writes.len(),
{
    if writes.len() > 0 {
        let rest = writes.drop_last();
        lemma_files_domain(rest, path);
        if spec_files(writes).contains_key(path) {
            if writes.last().0@ == path {
                assert(writes[writes.len() - 1].0@ == path);
            } else {
                let i = choose|i: int| 0 <= i < rest.len() && (#[trigger] rest[i]).0@ == path;
                assert(writes[i].0@ == path);
            }
        }
        if exists|i: int| 0 <= i < writes.len() && (#[trigger] writes[i]).0@ == path {
            let i = choose|i: int| 0 <= i < writes.len() && (#[trigger] writes[i]).0@ == path;
            if i < rest.len() {
                assert(rest[i].0@ == path);
            }
        }
    }
}

/// A file holds what the last write to its path put there.
proof fn lemma_files_last_write(writes: Seq<(String, Vec<u8>)>, last: int)
    requires
        0 <= last < writes.len(),
        forall|j: int| last < j < writes.len() ==> (#[trigger] writes[j]).0@ != writes[last].0@,
    ensures
        spec_files(writes).contains_key(writes[last].0@),
        spec_files(writes)[writes[last].0@] == writes[last].1@,
    decreases writes.len(),
{
    if last < writes.len() - 1 {
        let rest = writes.drop_last();
        assert(writes[writes.len() - 1].0@ != writes[last].0@);
        assert forall|j: int| last < j < rest.len() implies (#[trigger] rest[j]).0@
            != rest[last].0@ by {
            assert(writes[j].0@ != writes[last].0@);
        }
        lemma_files_last_write(rest, last);
    }
}

/// How a trust store answers a request, and what it holds afterwards.
///
/// A probe and a read leave the store as it is. A safe write to a path that
/// holds a file fails with `AlreadyExists` and leaves the store as it is; to
/// a free path it puts the contents there. Other requests are not for the
/// store.
pub open spec fn spec_answer(files: Map<Seq<char>, Seq<u8>>, request: RequestView) -> Option<
    (Map<Seq<char>, Seq<u8>>, ReplyView),
> {
    match request {
        RequestView::Probe { path } => Some(
            (files, ReplyView::Exists { present: files.contains_key(path) }),
        ),
        RequestView::Create { path, contents } => if files.contains_key(path) {
            Some((files, ReplyView::Failed { error: TrustError::AlreadyExists }))
        } else {
            Some((files.insert(path, contents), ReplyView::Created))
        },
        RequestView::Read { path } => if files.contains_key(path) {
            Some((files, ReplyView::Contents { bytes: files[path] }))
        } else {
            Some((files, ReplyView::Missing))
        },
        _ => None,
    }
}

/// A trust store in memory: the files it holds, by path.
#[derive(Debug)]
pub struct TrustStore {
    writes: Vec<(String, Vec<u8>)>,
}

impl View for TrustStore {
    type V = Map<Seq<char>, Seq<u8>>;

    closed spec fn view(&self) -> Map<Seq<char>, Seq<u8>> {
        spec_files(self.writes@)
    }
}

impl TrustStore {
    /// An empty store.
    pub fn new() -> (store: TrustStore)
        ensures
            store@ == Map::<Seq<char>, Seq<u8>>::empty(),
    {
        TrustStore { writes: Vec::new() }
    }

    /// The index of the last write to `path`, if there is one.
    fn find(&self, path: &str) -> (found: Option<usize>)
        ensures
            found is Some <==> self@.contains_key(path@),
            found matches Some(i) ==> i < self.writes@.len() && self.writes@[i as int].1@
                == self@[path@],
    {
        let mut i: usize = self.writes.len();
        while i > 0
            invariant
                i <= self.writes@.len(),
                forall|j: int| i <= j < self.writes@.len() ==> (#[trigger] self.writes@[j]).0@
                    != path@,
            decreases i,
        {
            i = i - 1;
            if same_text(self.writes[i].0.as_str(), path) {
                proof {
                    lemma_files_last_write(self.writes@, i as int);
                }
                return Some(i);
            }
        }
        proof {
            lemma_files_domain(self.writes@, path@);
        }
        None
    }

    /// Whether a file exists at `path`.
    pub fn contains(&self, path: &str) -> (present: bool)
        ensures
            present == self@.contains_key(path@),
    {
        self.find(path).is_some()
    }

    /// What the file at `path` holds, if there is one.
    pub fn read(&self, path: &str) -> (contents: Option<Vec<u8>>)
        ensures
            contents is Some <==> self@.contains_key(path@),
            contents matches Some(bytes) ==> bytes@ == self@[path@],
    {
        match self.find(path) {
            Some(i) => Some(copy_bytes(self.writes[i].1.as_slice())),
            None => None,
        }
    }

    /// Puts `contents` at `path`, whatever is there: this is how a store is
    /// filled by hand. No request of a bootstrap does this.
    pub fn write(&mut self, path: String, contents: Vec<u8>)
        ensures
            final(self)@ == old(self)@.insert(path@, contents@),
    {
        proof {
            assert(self.writes@.push((path, contents)).drop_last() =~= self.writes@);
        }
        self.writes.push((path, contents));
    }

    /// Writes `contents` to `path` unless a file is there: a path that holds
    /// a file, whatever it holds, is refused with `AlreadyExists`, and the
    /// store stays as it was.
    pub fn safe_write(&mut self, path: String, contents: Vec<u8>) -> (r: Result<(), TrustError>)
        ensures
            old(self)@.contains_key(path@) ==> r == Err::<(), TrustError>(
                TrustError::AlreadyExists,
            ) && final(self)@ == old(self)@,
            !old(self)@.contains_key(path@) ==> r == Ok::<(), TrustError>(()) && final(self)@
                == old(self)@.insert(path@, contents@),
    {
        if self.contains(path.as_str()) {
            Err(TrustError::AlreadyExists)
        } else {
            self.write(path, contents);
            Ok(())
        }
    }

    /// Answers a request as the directory on disk would. Requests that are
    /// not for the store get no answer and leave it as it is.
    pub fn answer(&mut self, request: Request) -> (reply: Option<Reply>)
        ensures
            match spec_answer(old(self)@, request@) {
                Some((files, expected)) => {
                    &&& final(self)@ == files
                    &&& reply matches Some(given)
                    &&& given@ == expected
                },
                None => final(self)@ == old(self)@ && reply is None,
            },
    {
        match request {
            Request::Probe { path } => Some(Reply::Exists { present: self.contains(path.as_str()) }),
            Request::Create { path, contents } => match self.safe_write(path, contents) {
                Ok(()) => Some(Reply::Created),
                Err(error) => Some(Reply::Failed { error }),
            },
            Request::Read { path } => match self.read(path.as_str()) {
                Some(bytes) => Some(Reply::Contents { bytes }),
                None => Some(Reply::Missing),
            },
            _ => None,
        }
    }
}

/// A safe write to a path that holds a file, whatever the file holds, fails
/// with `AlreadyExists` and changes nothing.
pub proof fn lemma_safe_write_never_overwrites(
    files: Map<Seq<char>, Seq<u8>>,
    path: Seq<char>,
    contents: Seq<u8>,
)
    requires
        files.contains_key(path),
    ensures
        spec_answer(files, RequestView::Create { path, contents }) == Some(
            (files, ReplyView::Failed { error: TrustError::AlreadyExists }),
        ),
{
}

/// Of two safe writes to one path the first wins: the second fails with
/// `AlreadyExists`, and the path holds what the first put there.
pub proof fn lemma_first_safe_write_wins(
    files: Map<Seq<char>, Seq<u8>>,
    path: Seq<char>,
    first: Seq<u8>,
    second: Seq<u8>,
)
    requires
        !files.contains_key(path),
    ensures
        spec_answer(files, RequestView::Create { path, contents: first }) matches Some(
            (between, reply),
        ) && reply == ReplyView::Created && spec_answer(
            between,
            RequestView::Create { path, contents: second },
        ) == Some((between, ReplyView::Failed { error: TrustError::AlreadyExists }))
            && between[path] == first,
{
}

/// Whatever a store is asked, a file that it holds stays where it is with
/// what it holds.
pub proof fn lemma_answer_keeps_files(
    files: Map<Seq<char>, Seq<u8>>,
    request: RequestView,
    path: Seq<char>,
)
    requires
        files.contains_key(path),
        spec_answer(files, request) is Some,
    ensures
        spec_answer(files, request) matches Some((after, _)) && after.contains_key(path)
            && after[path] == files[path],
{
}

} // verus!
