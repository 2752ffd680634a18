//! What a request to create a collection carries: a description, whether the
//! collection is public, and the files, each under its path.

use vstd::prelude::*;
use vstd::string::*;

use std::io::Error as ReadFailure;

use crate::error::Error;
use crate::text::text_or_empty;

verus! {

/// A path and the content that belongs under it, as characters.
pub type Entry = (Seq<char>, Seq<char>);

/// The mapping that a sequence of entries describes: each path maps to the
/// content of its last entry.
pub open spec fn map_of(entries: Seq<Entry>) -> Map<Seq<char>, Seq<char>>
    decreases entries.len(),
{
    if entries.len() == 0 {
        Map::empty()
    } else {
        map_of(entries.drop_last()).insert(entries.last().0, entries.last().1)
    }
}

/// No path occurs twice.
pub open spec fn distinct_paths(entries: Seq<Entry>) -> bool {
    forall|i: int, j: int|
        0 <= i < j < entries.len() ==> (#[trigger] entries[i]).0 != (#[trigger] entries[j]).0
}

/// Whether some entry has this path.
pub open spec fn has_path(entries: Seq<Entry>, path: Seq<char>) -> bool {
    exists|i: int| 0 <= i < entries.len() && (#[trigger] entries[i]).0 == path
}

/// The mapping has exactly the paths of the entries as its keys: one key for
/// each path, however often the path occurs.
pub proof fn lemma_map_of_keys(entries: Seq<Entry>)
    ensures
        map_of(entries).dom().finite(),
        forall|path: Seq<char>| #[trigger] map_of(entries).contains_key(path) <==> has_path(entries, path),
    decreases entries.len(),
{
    if entries.len() > 0 {
        let front = entries.drop_last();
        lemma_map_of_keys(front);
        assert forall|path: Seq<char>| #[trigger]
            map_of(entries).contains_key(path) <==> has_path(entries, path) by {
            if has_path(entries, path) {
                let i = choose|i: int| 0 <= i < entries.len() && (#[trigger] entries[i]).0 == path;
                if i < front.len() {
                    assert(front[i].0 == path);
                    assert(has_path(front, path));
                }
            }
            if map_of(entries).contains_key(path) {
                if path == entries.last().0 {
                    assert(entries[entries.len() - 1].0 == path);
                } else {
                    assert(has_path(front, path));
                    let i = choose|i: int| 0 <= i < front.len() && (#[trigger] front[i]).0 == path;
                    assert(entries[i].0 == path);
                }
            }
        }
    }
}

/// A path maps to the content of its entry if no later entry has the same
/// path.
pub proof fn lemma_map_of_content(entries: Seq<Entry>, i: int)
    requires
        0 <= i < entries.len(),
        forall|j: int| i < j < entries.len() ==> (#[trigger] entries[j]).0 != entries[i].0,
    ensures
        map_of(entries).contains_key(entries[i].0),
        map_of(entries)[entries[i].0] == entries[i].1,
    decreases entries.len(),
{
    if i < entries.len() - 1 {
        let front = entries.drop_last();
        assert(front[i] == entries[i]);
        assert forall|j: int| i < j < front.len() implies (#[trigger] front[j]).0 != front[i].0 by {
            assert(front[j] == entries[j]);
        }
        lemma_map_of_content(front, i);
        assert(entries[entries.len() - 1].0 != entries[i].0);
    }
}

/// Among entries with distinct paths, the mapping has as many keys as there
/// are entries.
pub proof fn lemma_map_of_count(entries: Seq<Entry>)
    requires
        distinct_paths(entries),
    ensures
        map_of(entries).dom().finite(),
        map_of(entries).dom().len() == entries.len(),
    decreases entries.len(),
{
    if entries.len() > 0 {
        let front = entries.drop_last();
        assert forall|i: int, j: int| 0 <= i < j < front.len() implies (#[trigger] front[i]).0 != (
        #[trigger] front[j]).0 by {
            assert(front[i] == entries[i] && front[j] == entries[j]);
        }
        lemma_map_of_count(front);
        lemma_map_of_keys(front);
        if has_path(front, entries.last().0) {
            let i = choose|i: int| 0 <= i < front.len() && (#[trigger] front[i]).0 == entries.last().0;
            assert(entries[i].0 == entries[entries.len() - 1].0);
        }
        assert(!map_of(front).dom().contains(entries.last().0));
    }
}

/// Giving an entry another content gives its path that content in the
/// mapping, where the paths are distinct.
proof fn lemma_map_of_update(entries: Seq<Entry>, i: int, content: Seq<char>)
    requires
        distinct_paths(entries),
        0 <= i < entries.len(),
    ensures
        map_of(entries.update(i, (entries[i].0, content))) == map_of(entries).insert(
            entries[i].0,
            content,
        ),
    decreases entries.len(),
{
    let changed = entries.update(i, (entries[i].0, content));
    let front = entries.drop_last();
    let last = entries.len() - 1;
    if i == last {
        assert(changed.drop_last() =~= front);
        assert(map_of(changed) =~= map_of(entries).insert(entries[i].0, content));
    } else {
        assert(front[i] == entries[i]);
        assert forall|a: int, b: int| 0 <= a < b < front.len() implies (#[trigger] front[a]).0 != (
        #[trigger] front[b]).0 by {
            assert(front[a] == entries[a] && front[b] == entries[b]);
        }
        lemma_map_of_update(front, i, content);
        assert(changed.drop_last() =~= front.update(i, (entries[i].0, content)));
        assert(changed.last() == entries.last());
        assert(entries[i].0 != entries[last].0);
        assert(map_of(changed) =~= map_of(entries).insert(entries[i].0, content));
    }
}

/// The content of one file of a new collection.
#[derive(Debug)]
pub struct CreateGistFilePayload {
    pub content: String,
}

/// A local file as it was read: its path, and its content or the reason why
/// there is none.
#[derive(Debug)]
pub struct FileRead {
    pub path: String,
    pub outcome: Result<String, ReadFailure>,
}

/// What a request to create a collection carries. The files are kept in the
/// order in which their paths first came, each path once.
#[derive(Debug)]
pub struct CreateGistPayload {
    description: String,
    public: bool,
    files: Vec<(String, CreateGistFilePayload)>,
}

/// The entries that a list of files stands for.
pub open spec fn entries_of(files: Seq<(String, CreateGistFilePayload)>) -> Seq<Entry> {
    Seq::new(files.len(), |i: int| (files[i].0@, files[i].1.content@))
}

/// Every read before the `i`-th succeeded, and the `i`-th failed.
pub open spec fn is_first_failure(reads: Seq<FileRead>, i: int) -> bool {
    &&& 0 <= i < reads.len()
    &&& reads[i].outcome is Err
    &&& forall|j: int| 0 <= j < i ==> (#[trigger] reads[j]).outcome is Ok
}

/// Every read succeeded.
pub open spec fn all_read(reads: Seq<FileRead>) -> bool {
    forall|i: int| 0 <= i < reads.len() ==> (#[trigger] reads[i]).outcome is Ok
}

/// The entries that reads which all succeeded give: each path with the
/// content that was read.
pub open spec fn read_entries(reads: Seq<FileRead>) -> Seq<Entry>
    recommends
        all_read(reads),
{
    Seq::new(reads.len(), |i: int| (reads[i].path@, reads[i].outcome->Ok_0@))
}

/// Of files that were all read, under paths that differ, the mapping holds
/// exactly one entry for each: as many entries as files, no key that is not
/// one of the paths, and under each path the content that was read there.
pub proof fn lemma_every_file_once(reads: Seq<FileRead>)
    requires
        all_read(reads),
        distinct_paths(read_entries(reads)),
    ensures
        map_of(read_entries(reads)).dom().finite(),
        map_of(read_entries(reads)).dom().len() == reads.len(),
        forall|i: int|
            0 <= i < reads.len() ==> map_of(read_entries(reads)).contains_key(
                (#[trigger] reads[i]).path@,
            ) && map_of(read_entries(reads))[reads[i].path@] == reads[i].outcome->Ok_0@,
        forall|path: Seq<char>| #[trigger]
            map_of(read_entries(reads)).contains_key(path) ==> exists|i: int|
                0 <= i < reads.len() && (#[trigger] reads[i]).path@ == path,
{
    let entries = read_entries(reads);
    lemma_map_of_count(entries);
    lemma_map_of_keys(entries);
    assert forall|i: int| 0 <= i < reads.len() implies map_of(entries).contains_key(
        (#[trigger] reads[i]).path@,
    ) && map_of(entries)[reads[i].path@] == reads[i].outcome->Ok_0@ by {
        assert(entries[i] == (reads[i].path@, reads[i].outcome->Ok_0@));
        assert forall|j: int| i < j < entries.len() implies (#[trigger] entries[j]).0
            != entries[i].0 by {}
        lemma_map_of_content(entries, i);
    }
    assert forall|path: Seq<char>| #[trigger] map_of(entries).contains_key(path) implies exists|
        i: int,
    |
        0 <= i < reads.len() && (#[trigger] reads[i]).path@ == path by {
        assert(has_path(entries, path));
        let i = choose|i: int| 0 <= i < entries.len() && (#[trigger] entries[i]).0 == path;
        assert(reads[i].path@ == path);
    }
}

impl CreateGistPayload {
    /// The entries in their order.
    pub closed spec fn entries(self) -> Seq<Entry> {
        entries_of(self.files@)
    }

    /// The description; empty where none was given.
    pub closed spec fn description_text(self) -> Seq<char> {
        self.description@
    }

    /// Whether the new collection is to be public.
    pub closed spec fn is_public(self) -> bool {
        self.public
    }

    /// The files: each path with its content.
    pub open spec fn files(self) -> Map<Seq<char>, Seq<char>> {
        map_of(self.entries())
    }

    /// No path is held twice.
    pub open spec fn wf(self) -> bool {
        distinct_paths(self.entries())
    }

    /// A payload without files. A description that is not given is empty.
    pub fn new(description: Option<String>, is_public: bool) -> (payload: Self)
        ensures
            payload.wf(),
            payload.entries() == Seq::<Entry>::empty(),
            payload.files() == Map::<Seq<char>, Seq<char>>::empty(),
            payload.description_text() == text_or_empty(description),
            payload.is_public() == is_public,
    {
        let description = match description {
            Some(text) => text,
            None => String::new(),
        };
        let payload = CreateGistPayload { description, public: is_public, files: Vec::new() };
        assert(payload.entries() =~= Seq::<Entry>::empty());
        payload
    }

    /// Puts a file under its path. A path that is already there keeps its
    /// place and gets the new content; the other files stay as they are.
    pub fn insert(&mut self, path: String, content: String)
        requires
            old(self).wf(),
        ensures
            final(self).wf(),
            final(self).files() == old(self).files().insert(path@, content@),
            final(self).description_text() == old(self).description_text(),
            final(self).is_public() == old(self).is_public(),
            has_path(old(self).entries(), path@) ==> final(self).entries().len() == old(
                self,
            ).entries().len(),
            !has_path(old(self).entries(), path@) ==> final(self).entries() == old(
                self,
            ).entries().push((path@, content@)),
    {
        let ghost before = self.entries();
        let mut i: usize = 0;
        while i < self.files.len()
            invariant
                i <= self.files.len(),
                self.entries() == before,
                distinct_paths(before),
                *self == *old(self),
                forall|j: int| 0 <= j < i ==> (#[trigger] before[j]).0 != path@,
            decreases self.files.len() - i,
        {
            if self.files[i].0 == path {
                assert(before[i as int].0 == path@);
                self.files.set(i, (path, CreateGistFilePayload { content }));
                proof {
                    let after = self.entries();
                    assert(after =~= before.update(i as int, (before[i as int].0, content@)));
                    lemma_map_of_update(before, i as int, content@);
                    assert(has_path(before, path@));
                    assert forall|a: int, b: int| 0 <= a < b < after.len() implies (
                    #[trigger] after[a]).0 != (#[trigger] after[b]).0 by {
                        assert(after[a].0 == before[a].0 && after[b].0 == before[b].0);
                    }
                }
                return ;
            }
            assert(before[i as int].0 != path@);
            i += 1;
        }
        self.files.push((path, CreateGistFilePayload { content }));
        proof {
            let after = self.entries();
            assert(after =~= before.push((path@, content@)));
            assert(after.drop_last() =~= before);
            assert(!has_path(before, path@));
            assert forall|a: int, b: int| 0 <= a < b < after.len() implies (#[trigger] after[a]).0
                != (#[trigger] after[b]).0 by {
                if b < before.len() {
                    assert(after[a] == before[a] && after[b] == before[b]);
                } else {
                    assert(after[a] == before[a]);
                }
            }
        }
    }

    /// What `from_reads` makes of reads that all succeeded.
    pub open spec fn holds_reads(
        self,
        reads: Seq<FileRead>,
        is_public: bool,
        description: Option<String>,
    ) -> bool {
        &&& self.wf()
        &&& self.files() == map_of(read_entries(reads))
        &&& self.description_text() == text_or_empty(description)
        &&& self.is_public() == is_public
    }

    /// Builds the payload from the files as they were read, in their order.
    /// If every read succeeded, the payload holds each path with its content;
    /// of a path that was read twice, the later content. If a read failed,
    /// there is no payload: the result is the failure of the first read that
    /// failed, as a file error.
    pub fn from_reads(reads: Vec<FileRead>, is_public: bool, description: Option<String>) -> (r:
        Result<Self, Error>)
        ensures
            r is Ok <==> all_read(reads@),
            r matches Ok(payload) ==> payload.holds_reads(reads@, is_public, description),
            forall|i: int|
                is_first_failure(reads@, i) ==> r == Err::<Self, Error>(
                    Error::FileIOError(reads@[i].outcome->Err_0),
                ),
    {
        let ghost all = reads@;
        let ghost mut done: int = 0;
        let mut rest = reads;
        let mut payload = CreateGistPayload::new(description, is_public);
        proof {
            assert(read_entries(all.subrange(0, 0)) =~= Seq::<Entry>::empty());
            assert(rest@ =~= all.subrange(0, all.len() as int));
        }
        while rest.len() > 0
            invariant
                all == reads@,
                0 <= done <= all.len(),
                rest@ == all.subrange(done, all.len() as int),
                forall|j: int| 0 <= j < done ==> (#[trigger] all[j]).outcome is Ok,
                payload.wf(),
                payload.files() == map_of(read_entries(all.subrange(0, done))),
                payload.description_text() == text_or_empty(description),
                payload.is_public() == is_public,
            decreases rest.len(),
        {
            assert(done < all.len());
            let read = rest.remove(0);
            assert(read == all[done]);
            assert(rest@ =~= all.subrange(done + 1, all.len() as int));
            let FileRead { path, outcome } = read;
            match outcome {
                Ok(content) => {
                    payload.insert(path, content);
                    proof {
                        let sofar = read_entries(all.subrange(0, done));
                        let next = read_entries(all.subrange(0, done + 1));
                        assert(next.len() == done + 1);
                        assert(next.drop_last() =~= sofar);
                        assert(next.last() == (path@, content@));
                    }
                },
                Err(cause) => {
                    assert(is_first_failure(all, done));
                    assert(!all_read(all));
                    assert forall|i: int| is_first_failure(all, i) implies i == done by {
                        if i < done {
                            assert(all[i].outcome is Ok);
                        } else if i > done {
                            assert(all[done].outcome is Ok);
                        }
                    }
                    return Err(Error::FileIOError(cause));
                },
            }
            proof {
                done = done + 1;
            }
        }
        proof {
            assert(all.subrange(0, done) =~= all);
            assert forall|i: int| !is_first_failure(all, i) by {
                if 0 <= i < all.len() {
                    assert(all[i].outcome is Ok);
                }
            }
        }
        Ok(payload)
    }

    /// The description.
    pub fn description(&self) -> (text: &String)
        ensures
            text@ == self.description_text(),
    {
        &self.description
    }

    /// Whether the new collection is to be public.
    pub fn public(&self) -> (yes: bool)
        ensures
            yes == self.is_public(),
    {
        self.public
    }

    /// The files in their order, each path with its content.
    pub fn entries_list(&self) -> (list: &Vec<(String, CreateGistFilePayload)>)
        ensures
            entries_of(list@) == self.entries(),
    {
        &self.files
    }

    /// The content under a path, if the payload holds the path.
    pub fn content_of(&self, path: &str) -> (found: Option<&String>)
        requires
            self.wf(),
        ensures
            match found {
                Some(content) => self.files().contains_key(path@) && self.files()[path@] == content@,
                None => !self.files().contains_key(path@),
            },
    {
        let wanted = String::from_str(path);
        let mut i: usize = 0;
        while i < self.files.len()
            invariant
                i <= self.files.len(),
                self.wf(),
                wanted@ == path@,
                forall|j: int| 0 <= j < i ==> (#[trigger] self.entries()[j]).0 != path@,
            decreases self.files.len() - i,
        {
            if self.files[i].0 == wanted {
                proof {
                    assert(self.entries()[i as int].0 == path@);
                    lemma_map_of_content(self.entries(), i as int);
                }
                return Some(&self.files[i].1.content);
            }
            assert(self.entries()[i as int].0 != path@);
            i += 1;
        }
        proof {
            lemma_map_of_keys(self.entries());
            assert(!has_path(self.entries(), path@));
        }
        None
    }
}

} // verus!
