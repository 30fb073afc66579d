use vstd::prelude::*;
use crate::entry::{kind_marker, marker_of, Entry, EntryKind, EntryModel};
use crate::listing::{listing_of, of_kind, Listing, ListingModel};
use crate::nav::{entered, nav_wf, NavModel, NavigationState};

verus! {

/// What choosing a row does.
#[derive(Clone, Debug)]
pub enum RowAction {
    /// Open the directory at this path.
    Enter(String),
    /// End the session.
    Quit,
    /// Step back in the history.
    GoBack,
}

/// One selectable line of the browsing view.
#[derive(Clone, Debug)]
pub struct Row {
    pub label: String,
    pub action: RowAction,
}

/// The mathematical value of a [`RowAction`].
pub enum ActionModel {
    Enter(Seq<char>),
    Quit,
    GoBack,
}

/// The mathematical value of a [`Row`].
pub struct RowModel {
    pub label: Seq<char>,
    pub action: ActionModel,
}

impl View for RowAction {
    type V = ActionModel;

    open spec fn view(&self) -> ActionModel {
        match self {
            RowAction::Enter(p) => ActionModel::Enter(p@),
            RowAction::Quit => ActionModel::Quit,
            RowAction::GoBack => ActionModel::GoBack,
        }
    }
}

impl View for Row {
    type V = RowModel;

    open spec fn view(&self) -> RowModel {
        RowModel { label: self.label@, action: self.action@ }
    }
}

/// The views of a sequence of rows.
pub open spec fn row_views(s: Seq<Row>) -> Seq<RowModel> {
    s.map_values(|r: Row| r@)
}

/// The text of an entry's row: its kind's tag, a space, its full path.
pub open spec fn entry_label(e: EntryModel) -> Seq<char> {
    marker_of(e.kind) + " "@ + e.full_path
}

/// A directory's row opens it.
pub open spec fn dir_row(e: EntryModel) -> RowModel {
    RowModel { label: entry_label(e), action: ActionModel::Enter(e.full_path) }
}

/// A file's row ends the session.
pub open spec fn file_row(e: EntryModel) -> RowModel {
    RowModel { label: entry_label(e), action: ActionModel::Quit }
}

/// The label of the row that steps back.
pub open spec fn back_label() -> Seq<char> {
    "- Go Back -"@
}

/// The rows shown for a listing at the given history depth: one per
/// directory, then one per file, then a row that steps back unless the
/// history holds the root alone.
pub open spec fn rows_of(l: ListingModel, depth: nat) -> Seq<RowModel> {
    let main = l.dirs.map_values(|e: EntryModel| dir_row(e)) + l.files.map_values(
        |e: EntryModel| file_row(e),
    );
    if depth >= 2 {
        main.push(RowModel { label: back_label(), action: ActionModel::GoBack })
    } else {
        main
    }
}

/// How many of the enumerated items are of the given kind.
pub open spec fn count_kind(raws: Seq<(Seq<char>, EntryKind)>, kind: EntryKind) -> nat
    decreases raws.len(),
{
    if raws.len() == 0 {
        0
    } else {
        count_kind(raws.drop_last(), kind) + if raws.last().1 == kind {
            1nat
        } else {
            0nat
        }
    }
}

proof fn lemma_of_kind_len(dir: Seq<char>, raws: Seq<(Seq<char>, EntryKind)>, kind: EntryKind)
    ensures
        of_kind(dir, raws, kind).len() == count_kind(raws, kind),
    decreases raws.len(),
{
    if raws.len() > 0 {
        lemma_of_kind_len(dir, raws.drop_last(), kind);
    }
}

/// A directory holding `d` subdirectories and `f` files is shown as exactly
/// `d + f` rows, and one more that steps back when the history is two or
/// more deep.
pub proof fn lemma_row_count(dir: Seq<char>, raws: Seq<(Seq<char>, EntryKind)>, depth: nat)
    ensures
        rows_of(listing_of(dir, raws), depth).len() == count_kind(raws, EntryKind::Directory)
            + count_kind(raws, EntryKind::File) + if depth >= 2 {
            1nat
        } else {
            0nat
        },
{
    lemma_of_kind_len(dir, raws, EntryKind::Directory);
    lemma_of_kind_len(dir, raws, EntryKind::File);
}

/// Every directory row opens its own path: entering it, whatever its
/// enumeration reports, makes the history one deeper with that path on top.
pub proof fn lemma_dir_row_enters(m: NavModel, i: int, raws: Seq<(Seq<char>, EntryKind)>)
    requires
        nav_wf(m),
        0 <= i < m.listing.dirs.len(),
    ensures
        ({
            let row = rows_of(m.listing, m.stack.len())[i];
            let p = m.listing.dirs[i].full_path;
            &&& row.label == marker_of(EntryKind::Directory) + " "@ + p
            &&& row.action == ActionModel::Enter(p)
            &&& entered(m, p, raws).stack.len() == m.stack.len() + 1
            &&& entered(m, p, raws).stack.last() == p
            &&& nav_wf(entered(m, p, raws))
        }),
{
    crate::listing::lemma_listing_in(m.listing.dirs[i].full_path, raws);
}

/// Every file row ends the session.
pub proof fn lemma_file_row_quits(l: ListingModel, depth: nat, j: int)
    requires
        0 <= j < l.files.len(),
    ensures
        rows_of(l, depth)[l.dirs.len() + j].action == ActionModel::Quit,
{
}

fn entry_row_label(e: &Entry) -> (r: String)
    ensures
        r@ == entry_label(e@),
{
    let mut label = String::from_str(kind_marker(e.kind));
    label.append(" ");
    label.append(e.full_path.as_str());
    label
}

/// Builds the rows of the browsing view for `listing` at history depth `depth`.
pub fn render_rows(listing: &Listing, depth: usize) -> (r: Vec<Row>)
    ensures
        row_views(r@) == rows_of(listing@, depth as nat),
{
    let ghost l = listing@;
    let mut rows: Vec<Row> = Vec::new();
    let mut i: usize = 0;
    while i < listing.dirs.len()
        invariant
            i <= listing.dirs@.len(),
            l == listing@,
            row_views(rows@) =~= l.dirs.subrange(0, i as int).map_values(
                |e: EntryModel| dir_row(e),
            ),
        decreases listing.dirs@.len() - i,
    {
        let e = &listing.dirs[i];
        let label = entry_row_label(e);
        let row = Row { label, action: RowAction::Enter(e.full_path.clone()) };
        assert(row@ == dir_row(l.dirs[i as int]));
        let ghost prev = rows@;
        rows.push(row);
        proof {
            assert(rows@ =~= prev.push(row));
            let ghost ds = l.dirs.subrange(0, i as int);
            assert(l.dirs.subrange(0, i + 1) =~= ds.push(l.dirs[i as int]));
            assert(row_views(prev.push(row)) =~= row_views(prev).push(row@));
            assert(ds.push(l.dirs[i as int]).map_values(|e: EntryModel| dir_row(e))
                =~= ds.map_values(|e: EntryModel| dir_row(e)).push(dir_row(l.dirs[i as int])));
        }
        i = i + 1;
    }
    assert(l.dirs.subrange(0, l.dirs.len() as int) =~= l.dirs);
    let ghost head = row_views(rows@);
    let mut j: usize = 0;
    while j < listing.files.len()
        invariant
            j <= listing.files@.len(),
            l == listing@,
            head == l.dirs.map_values(|e: EntryModel| dir_row(e)),
            row_views(rows@) =~= head + l.files.subrange(0, j as int).map_values(
                |e: EntryModel| file_row(e),
            ),
        decreases listing.files@.len() - j,
    {
        let e = &listing.files[j];
        let label = entry_row_label(e);
        let row = Row { label, action: RowAction::Quit };
        assert(row@ == file_row(l.files[j as int]));
        let ghost prev = rows@;
        rows.push(row);
        proof {
            assert(rows@ =~= prev.push(row));
            let ghost fs = l.files.subrange(0, j as int);
            assert(l.files.subrange(0, j + 1) =~= fs.push(l.files[j as int]));
            assert(row_views(prev.push(row)) =~= row_views(prev).push(row@));
            assert(fs.push(l.files[j as int]).map_values(|e: EntryModel| file_row(e))
                =~= fs.map_values(|e: EntryModel| file_row(e)).push(file_row(l.files[j as int])));
        }
        j = j + 1;
    }
    assert(l.files.subrange(0, l.files.len() as int) =~= l.files);
    if depth >= 2 {
        rows.push(Row { label: String::from_str("- Go Back -"), action: RowAction::GoBack });
    }
    proof {
        assert(row_views(rows@) =~= rows_of(l, depth as nat));
    }
    rows
}

impl NavigationState {
    /// The rows of the browsing view for the directory shown.
    pub fn rows(&self) -> (r: Vec<Row>)
        ensures
            row_views(r@) == rows_of(self@.listing, self@.stack.len()),
    {
        render_rows(self.listing(), self.depth())
    }
}

} // verus!
