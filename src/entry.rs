use vstd::prelude::*;

verus! {

/// What kind of filesystem object an entry is.
#[derive(Clone, Copy, Debug, PartialEq, Eq, Structural)]
pub enum EntryKind {
    File,
    Directory,
    Symlink,
    Other,
}

/// One item as directory enumeration reports it: a bare name and its kind.
#[derive(Clone, Debug)]
pub struct RawEntry {
    pub name: String,
    pub kind: EntryKind,
}

/// One filesystem object of a listing, with the path it is reached by.
#[derive(Clone, Debug)]
pub struct Entry {
    pub name: String,
    pub full_path: String,
    pub kind: EntryKind,
}

/// The mathematical value of an [`Entry`].
pub struct EntryModel {
    pub name: Seq<char>,
    pub full_path: Seq<char>,
    pub kind: EntryKind,
}

impl View for RawEntry {
    type V = (Seq<char>, EntryKind);

    open spec fn view(&self) -> (Seq<char>, EntryKind) {
        (self.name@, self.kind)
    }
}

impl View for Entry {
    type V = EntryModel;

    open spec fn view(&self) -> EntryModel {
        EntryModel { name: self.name@, full_path: self.full_path@, kind: self.kind }
    }
}

/// The path of `name` inside the directory `dir`: a separator is put between
/// the two unless `dir` already ends with one.
pub open spec fn joined(dir: Seq<char>, name: Seq<char>) -> Seq<char> {
    if dir.len() > 0 && dir.last() == '/' {
        dir + name
    } else {
        dir + seq!['/'] + name
    }
}

/// The entry that enumerating `dir` reports as `raw`.
pub open spec fn entry_in(dir: Seq<char>, raw: (Seq<char>, EntryKind)) -> EntryModel {
    EntryModel { name: raw.0, full_path: joined(dir, raw.0), kind: raw.1 }
}

/// The tag shown in front of a row of the given kind.
pub open spec fn marker_of(kind: EntryKind) -> Seq<char> {
    match kind {
        EntryKind::File => "--- File"@,
        EntryKind::Directory => "--- Directory"@,
        EntryKind::Symlink => "--- Symlink"@,
        EntryKind::Other => "--- Other"@,
    }
}

/// Builds the path of `name` inside `dir`.
pub fn join_path(dir: &str, name: &str) -> (r: String)
    ensures
        r@ == joined(dir@, name@),
{
    let n = dir.unicode_len();
    let mut r = String::from_str(dir);
    if n == 0 || dir.get_char(n - 1) != '/' {
        r.append("/");
        proof {
            reveal_strlit("/");
        }
    }
    r.append(name);
    r
}

/// The tag shown in front of a row of the given kind.
pub fn kind_marker(kind: EntryKind) -> (r: &'static str)
    ensures
        r@ == marker_of(kind),
{
    match kind {
        EntryKind::File => "--- File",
        EntryKind::Directory => "--- Directory",
        EntryKind::Symlink => "--- Symlink",
        EntryKind::Other => "--- Other",
    }
}

impl EntryKind {
    /// Classifies an object from the three questions a filesystem answers of
    /// it; a kind that is none of these falls back to `Other`.
    pub fn classify(is_file: bool, is_dir: bool, is_symlink: bool) -> (r: EntryKind)
        ensures
            is_file ==> r == EntryKind::File,
            !is_file && is_dir ==> r == EntryKind::Directory,
            !is_file && !is_dir && is_symlink ==> r == EntryKind::Symlink,
            !is_file && !is_dir && !is_symlink ==> r == EntryKind::Other,
    {
        if is_file {
            EntryKind::File
        } else if is_dir {
            EntryKind::Directory
        } else if is_symlink {
            EntryKind::Symlink
        } else {
            EntryKind::Other
        }
    }
}

impl Entry {
    /// The entry for the enumerated item `raw` of the directory `dir`.
    pub fn new(dir: &str, raw: &RawEntry) -> (e: Entry)
        ensures
            e@ == entry_in(dir@, raw@),
    {
        Entry { name: raw.name.clone(), full_path: join_path(dir, raw.name.as_str()), kind: raw.kind }
    }
}

} // verus!
