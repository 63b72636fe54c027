//! The file pool: the configured paths as they were found on disk.

use vstd::prelude::*;

use crate::text::texts;

verus! {

/// What a directory entry turned out to be.
#[derive(Clone, Copy, Debug, PartialEq, Eq, Structural)]
pub enum EntryKind {
    File,
    Directory,
    /// A symbolic link or anything else that is neither a file nor a directory.
    Other,
    /// The entry's metadata could not be read.
    Unreadable,
}

/// An entry of a listed directory.
pub struct Entry {
    pub path: String,
    pub kind: EntryKind,
}

/// A configured path as found on disk.
pub enum Scanned {
    /// The path is a file.
    File(String),
    /// The path is a directory, with its entries.
    Directory(Vec<Entry>),
}

/// The paths of the entries that are files, in their order.
pub open spec fn listed_files(entries: Seq<Entry>) -> Seq<Seq<char>>
    decreases entries.len(),
{
    if entries.len() == 0 {
        seq![]
    } else {
        let rest = listed_files(entries.drop_last());
        if entries.last().kind == EntryKind::File {
            rest.push(entries.last().path@)
        } else {
            rest
        }
    }
}

/// The files that a scanned path adds to the pool.
pub open spec fn files_of(s: Scanned) -> Seq<Seq<char>> {
    match s {
        Scanned::File(p) => seq![p@],
        Scanned::Directory(entries) => listed_files(entries@),
    }
}

/// The file pool: each configured file, and the files directly inside each
/// configured directory, in order; subdirectories are not entered.
pub open spec fn file_pool(scanned: Seq<Scanned>) -> Seq<Seq<char>>
    decreases scanned.len(),
{
    if scanned.len() == 0 {
        seq![]
    } else {
        file_pool(scanned.drop_last()) + files_of(scanned.last())
    }
}

proof fn lemma_push_view(v: Seq<String>, s: String)
    ensures
        texts(v.push(s)) == texts(v).push(s@),
{
    assert(texts(v.push(s)) =~= texts(v).push(s@));
}

/// Appends to `out` the paths of the entries that are files.
fn push_listed_files(entries: &Vec<Entry>, out: &mut Vec<String>)
    ensures
        texts(final(out)@) == texts(old(out)@) + listed_files(entries@),
{
    let ghost start = texts(out@);
    let mut k: usize = 0;
    while k < entries.len()
        invariant
            k <= entries@.len(),
            texts(out@) == start + listed_files(entries@.take(k as int)),
        decreases entries@.len() - k,
    {
        let ghost before = out@;
        assert(entries@.take(k as int + 1).drop_last() =~= entries@.take(k as int));
        if entries[k].kind == EntryKind::File {
            out.push(entries[k].path.clone());
            proof {
                lemma_push_view(before, out@.last());
                assert(out@ == before.push(out@.last()));
            }
        }
        k = k + 1;
    }
    assert(entries@.take(k as int) =~= entries@);
    assert(start + listed_files(seq![]) =~= start);
}

/// The file pool of the scanned paths.
pub fn collect_files(scanned: &Vec<Scanned>) -> (r: Vec<String>)
    ensures
        texts(r@) == file_pool(scanned@),
{
    let mut r: Vec<String> = Vec::new();
    let mut k: usize = 0;
    assert(texts(r@) =~= seq![]);
    while k < scanned.len()
        invariant
            k <= scanned@.len(),
            texts(r@) == file_pool(scanned@.take(k as int)),
        decreases scanned@.len() - k,
    {
        let ghost before = r@;
        assert(scanned@.take(k as int + 1).drop_last() =~= scanned@.take(k as int));
        match &scanned[k] {
            Scanned::File(p) => {
                r.push(p.clone());
                proof {
                    lemma_push_view(before, r@.last());
                    assert(r@ == before.push(r@.last()));
                    assert(texts(before).push(p@) =~= texts(before) + seq![p@]);
                }
            },
            Scanned::Directory(entries) => {
                push_listed_files(entries, &mut r);
            },
        }
        k = k + 1;
    }
    assert(scanned@.take(k as int) =~= scanned@);
    r
}

} // verus!
