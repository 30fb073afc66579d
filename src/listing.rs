use vstd::prelude::*;
use crate::entry::{entry_in, joined, Entry, EntryKind, EntryModel, RawEntry};

verus! {

/// The contents of one directory: its subdirectories, then its files, each
/// group in the order enumeration gave them. Other kinds are not listed.
#[derive(Clone, Debug)]
pub struct Listing {
    pub dirs: Vec<Entry>,
    pub files: Vec<Entry>,
}

/// The mathematical value of a [`Listing`].
pub struct ListingModel {
    pub dirs: Seq<EntryModel>,
    pub files: Seq<EntryModel>,
}

/// The views of a sequence of entries.
pub open spec fn entry_views(s: Seq<Entry>) -> Seq<EntryModel> {
    s.map_values(|e: Entry| e@)
}

/// The views of a sequence of enumerated items.
pub open spec fn raw_views(s: Seq<RawEntry>) -> Seq<(Seq<char>, EntryKind)> {
    s.map_values(|r: RawEntry| r@)
}

impl View for Listing {
    type V = ListingModel;

    open spec fn view(&self) -> ListingModel {
        ListingModel { dirs: entry_views(self.dirs@), files: entry_views(self.files@) }
    }
}

/// The entries of `dir` of the given kind, in enumeration order.
pub open spec fn of_kind(
    dir: Seq<char>,
    raws: Seq<(Seq<char>, EntryKind)>,
    kind: EntryKind,
) -> Seq<EntryModel>
    decreases raws.len(),
{
    if raws.len() == 0 {
        Seq::empty()
    } else {
        let before = of_kind(dir, raws.drop_last(), kind);
        if raws.last().1 == kind {
            before.push(entry_in(dir, raws.last()))
        } else {
            before
        }
    }
}

/// The listing of `dir` when enumeration reports `raws`.
pub open spec fn listing_of(dir: Seq<char>, raws: Seq<(Seq<char>, EntryKind)>) -> ListingModel {
    ListingModel {
        dirs: of_kind(dir, raws, EntryKind::Directory),
        files: of_kind(dir, raws, EntryKind::File),
    }
}

/// Every entry of `s` is an object of `dir` of the given kind.
pub open spec fn all_in(s: Seq<EntryModel>, dir: Seq<char>, kind: EntryKind) -> bool {
    forall|i: int|
        0 <= i < s.len() ==> (#[trigger] s[i]).full_path == joined(dir, s[i].name) && s[i].kind
            == kind
}

/// A listing shows objects of `dir` only: directories in the first group,
/// files in the second.
pub open spec fn listing_in(l: ListingModel, dir: Seq<char>) -> bool {
    all_in(l.dirs, dir, EntryKind::Directory) && all_in(l.files, dir, EntryKind::File)
}

/// What enumeration reports for `dir` makes a listing of `dir`'s objects.
pub proof fn lemma_of_kind_in(dir: Seq<char>, raws: Seq<(Seq<char>, EntryKind)>, kind: EntryKind)
    ensures
        all_in(of_kind(dir, raws, kind), dir, kind),
    decreases raws.len(),
{
    if raws.len() > 0 {
        lemma_of_kind_in(dir, raws.drop_last(), kind);
    }
}

/// A listing built from an enumeration of `dir` holds objects of `dir` only.
pub proof fn lemma_listing_in(dir: Seq<char>, raws: Seq<(Seq<char>, EntryKind)>)
    ensures
        listing_in(listing_of(dir, raws), dir),
{
    lemma_of_kind_in(dir, raws, EntryKind::Directory);
    lemma_of_kind_in(dir, raws, EntryKind::File);
}

impl Listing {
    /// Partitions what enumerating `dir` reported into directories and files,
    /// keeping enumeration order within each group.
    pub fn from_raw(dir: &str, raws: &Vec<RawEntry>) -> (l: Listing)
        ensures
            l@ == listing_of(dir@, raw_views(raws@)),
    {
        let mut dirs: Vec<Entry> = Vec::new();
        let mut files: Vec<Entry> = Vec::new();
        let mut i: usize = 0;
        while i < raws.len()
            invariant
                i <= raws@.len(),
                entry_views(dirs@) == of_kind(
                    dir@,
                    raw_views(raws@.subrange(0, i as int)),
                    EntryKind::Directory,
                ),
                entry_views(files@) == of_kind(
                    dir@,
                    raw_views(raws@.subrange(0, i as int)),
                    EntryKind::File,
                ),
            decreases raws@.len() - i,
        {
            let ghost before = raw_views(raws@.subrange(0, i as int));
            let ghost after = raw_views(raws@.subrange(0, i + 1));
            assert(after.drop_last() =~= before);
            assert(after.last() == raws@[i as int]@);
            let e = Entry::new(dir, &raws[i]);
            if raws[i].kind == EntryKind::Directory {
                dirs.push(e);
            } else if raws[i].kind == EntryKind::File {
                files.push(e);
            }
            assert(entry_views(dirs@) =~= of_kind(dir@, after, EntryKind::Directory));
            assert(entry_views(files@) =~= of_kind(dir@, after, EntryKind::File));
            i = i + 1;
        }
        assert(raws@.subrange(0, raws@.len() as int) =~= raws@);
        Listing { dirs, files }
    }

    /// The number of entries shown: directories and files together.
    pub fn len(&self) -> (n: usize)
        requires
            self.dirs@.len() + self.files@.len() <= usize::MAX,
        ensures
            n == self@.dirs.len() + self@.files.len(),
    {
        self.dirs.len() + self.files.len()
    }
}

} // verus!
