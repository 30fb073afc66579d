use vstd::prelude::*;
use crate::entry::{EntryModel, RawEntry};
use crate::frames::ButtonAction;
use crate::keys::{command_for, dispatch, Command, Key};
use crate::listing::{listing_of, raw_views};
use crate::modes::{dismissed, modes_wf, ModeStack, UiMode};
use crate::nav::{
    backed, entered, nav_wf, AccessError, InvalidRootError, NavModel, NavigationState,
};
use crate::rows::{dir_row, file_row, row_views, rows_of, ActionModel, Row, RowAction};

verus! {

/// What the caller has to do after a decision of the [`Explorer`].
#[derive(Clone, Debug)]
pub enum Step {
    /// Nothing but draw the screen again.
    Redraw,
    /// List this directory and hand the result to [`Explorer::finish_enter`].
    List(String),
    /// List this directory, the parent in the history, and hand the result
    /// to [`Explorer::finish_back`].
    ListParent(String),
    /// End the session.
    Quit,
}

/// The mathematical value of an [`Explorer`].
pub struct ExplorerModel {
    pub nav: NavModel,
    pub modes: Seq<UiMode>,
    pub error: Option<AccessError>,
}

/// The browser as a whole: where it is, which layers are on screen, and the
/// last enumeration failure reported.
#[derive(Clone, Debug)]
pub struct Explorer {
    nav: NavigationState,
    modes: ModeStack,
    error: Option<AccessError>,
}

/// The text of the help layer.
pub open spec fn help_spec() -> Seq<char> {
    "Press <> to create new File \nPress <> to create new Folder \nPress <s> to Search \nPress <q> to exit program \nPress <h> to open Help"@
}

/// The text of the help layer.
pub fn help_text() -> (r: &'static str)
    ensures
        r@ == help_spec(),
{
    "Press <> to create new File \nPress <> to create new Folder \nPress <s> to Search \nPress <q> to exit program \nPress <h> to open Help"
}

/// The state after carrying out `c`: help and search are put on top; the
/// rest leaves the state as it is.
pub open spec fn after_command(m: ExplorerModel, c: Command) -> ExplorerModel {
    match c {
        Command::OpenHelp => ExplorerModel { modes: m.modes.push(UiMode::HelpOverlay), ..m },
        Command::OpenSearch => ExplorerModel { modes: m.modes.push(UiMode::SearchOverlay), ..m },
        _ => m,
    }
}

/// Whether `r` is what the caller is asked to do after `c` in state `m`:
/// stepping back is asked for only while browsing away from the root, and
/// quitting ends the session from any layer.
pub open spec fn command_step(m: ExplorerModel, c: Command, r: Step) -> bool {
    match c {
        Command::GoBack => if m.modes.last() == UiMode::Browsing && m.nav.stack.len() > 1 {
            r matches Step::ListParent(p) && p@ == m.nav.stack.drop_last().last()
        } else {
            r is Redraw
        },
        Command::Quit => r is Quit,
        _ => r is Redraw,
    }
}

/// Opening help and then dismissing the top layer gives back exactly the
/// layers, and the rest of the state, that were there before.
pub proof fn lemma_help_round_trip(m: ExplorerModel)
    requires
        modes_wf(m.modes),
    ensures
        ({
            let opened = after_command(m, Command::OpenHelp);
            ExplorerModel { modes: dismissed(opened.modes), ..opened } == m
        }),
{
    assert(m.modes.push(UiMode::HelpOverlay).drop_last() =~= m.modes);
}

impl View for Explorer {
    type V = ExplorerModel;

    closed spec fn view(&self) -> ExplorerModel {
        ExplorerModel { nav: self.nav@, modes: self.modes@, error: self.error }
    }
}

impl Explorer {
    pub open spec fn wf(&self) -> bool {
        nav_wf(self@.nav) && modes_wf(self@.modes)
    }

    /// Starts browsing at `root`, given what enumerating it reported; a root
    /// that cannot be listed is refused.
    pub fn start(root: String, found: Result<Vec<RawEntry>, AccessError>) -> (r: Result<
        Explorer,
        InvalidRootError,
    >)
        ensures
            found is Ok <==> r is Ok,
            r matches Ok(x) ==> x.wf() && x@ == (ExplorerModel {
                nav: NavModel {
                    stack: seq![root@],
                    listing: listing_of(root@, raw_views(found->Ok_0@)),
                },
                modes: seq![UiMode::Browsing],
                error: None,
            }),
            r matches Err(e) ==> e.path == found->Err_0.path && e.reason == found->Err_0.reason,
    {
        match NavigationState::start(root, found) {
            Ok(nav) => Ok(Explorer { nav, modes: ModeStack::new(), error: None }),
            Err(e) => Err(e),
        }
    }

    /// Where the browser is.
    pub fn nav(&self) -> (r: &NavigationState)
        ensures
            r@ == self@.nav,
            self.wf() ==> r.wf(),
    {
        &self.nav
    }

    /// The layers on screen.
    pub fn modes(&self) -> (r: &ModeStack)
        ensures
            r@ == self@.modes,
            self.wf() ==> r.wf(),
    {
        &self.modes
    }

    /// The layer receiving input.
    pub fn mode(&self) -> (m: UiMode)
        requires
            self.wf(),
        ensures
            m == self@.modes.last(),
    {
        self.modes.current()
    }

    /// The last enumeration failure reported, if any.
    pub fn last_error(&self) -> (r: &Option<AccessError>)
        ensures
            *r == self@.error,
    {
        &self.error
    }

    /// The rows of the browsing layer.
    pub fn rows(&self) -> (r: Vec<Row>)
        requires
            self.wf(),
        ensures
            row_views(r@) == rows_of(self@.nav.listing, self@.nav.stack.len()),
    {
        self.nav.rows()
    }

    /// Carries out a command. Stepping back is asked of the caller only
    /// while browsing and away from the root; overlays are put on top;
    /// quitting ends the session from any layer.
    pub fn command(&mut self, c: Command) -> (r: Step)
        requires
            old(self).wf(),
        ensures
            final(self).wf(),
            final(self)@ == after_command(old(self)@, c),
            command_step(old(self)@, c, r),
    {
        match c {
            Command::GoBack => {
                if self.modes.current() == UiMode::Browsing {
                    match self.nav.back_target() {
                        Some(p) => Step::ListParent(p),
                        None => Step::Redraw,
                    }
                } else {
                    Step::Redraw
                }
            },
            Command::OpenHelp => {
                self.modes.open_help();
                Step::Redraw
            },
            Command::OpenSearch => {
                self.modes.open_search();
                Step::Redraw
            },
            Command::Quit => Step::Quit,
        }
    }

    /// Handles a key press through the table of key bindings; an unbound key
    /// changes nothing.
    pub fn key(&mut self, k: Key) -> (r: Step)
        requires
            old(self).wf(),
        ensures
            final(self).wf(),
            command_for(k) is None ==> r is Redraw && final(self)@ == old(self)@,
            command_for(k) matches Some(c) ==> final(self)@ == after_command(old(self)@, c)
                && command_step(old(self)@, c, r),
    {
        match dispatch(k) {
            Some(c) => self.command(c),
            None => Step::Redraw,
        }
    }

    /// Chooses row `i` of the browsing layer: a directory's row asks the
    /// caller to list it, a file's row ends the session, the last row away
    /// from the root steps back. An index past the rows changes nothing.
    pub fn select_row(&mut self, i: usize) -> (r: Step)
        requires
            old(self).wf(),
        ensures
            final(self).wf(),
            final(self)@ == old(self)@,
            ({
                let rows = rows_of(old(self)@.nav.listing, old(self)@.nav.stack.len());
                &&& i >= rows.len() ==> r is Redraw
                &&& i < rows.len() ==> match rows[i as int].action {
                    ActionModel::Enter(p) => r matches Step::List(q) && q@ == p,
                    ActionModel::Quit => r is Quit,
                    ActionModel::GoBack => r matches Step::ListParent(q) && q@
                        == old(self)@.nav.stack.drop_last().last(),
                }
            }),
    {
        let rows = self.nav.rows();
        if i >= rows.len() {
            return Step::Redraw;
        }
        let ghost row = rows@[i as int];
        assert(row_views(rows@)[i as int] == row@);
        proof {
            let l = self@.nav.listing;
            let main = l.dirs.map_values(|e: EntryModel| dir_row(e)) + l.files.map_values(
                |e: EntryModel| file_row(e),
            );
            if i < main.len() {
                if i < l.dirs.len() {
                    assert(main[i as int] == dir_row(l.dirs[i as int]));
                } else {
                    assert(main[i as int] == file_row(l.files[i - l.dirs.len()]));
                }
            }
        }
        match &rows[i].action {
            RowAction::Enter(p) => Step::List(p.clone()),
            RowAction::Quit => Step::Quit,
            RowAction::GoBack => {
                match self.nav.back_target() {
                    Some(p) => Step::ListParent(p),
                    None => Step::Redraw,
                }
            },
        }
    }

    /// Handles a button of the top layer: a command is carried out as its
    /// key would be; dismissing removes the top layer.
    pub fn press(&mut self, a: ButtonAction) -> (r: Step)
        requires
            old(self).wf(),
        ensures
            final(self).wf(),
            a matches ButtonAction::Run(c) ==> final(self)@ == after_command(old(self)@, c)
                && command_step(old(self)@, c, r),
            a is Dismiss ==> r is Redraw && final(self)@ == (ExplorerModel {
                modes: dismissed(old(self)@.modes),
                ..old(self)@
            }),
    {
        match a {
            ButtonAction::Run(c) => self.command(c),
            ButtonAction::Dismiss => {
                self.modes.dismiss();
                Step::Redraw
            },
        }
    }

    /// Removes the top layer, if it is not the browsing one, and says
    /// whether one was removed.
    pub fn dismiss(&mut self) -> (popped: bool)
        requires
            old(self).wf(),
        ensures
            final(self).wf(),
            final(self)@.nav == old(self)@.nav,
            final(self)@.error == old(self)@.error,
            final(self)@.modes == dismissed(old(self)@.modes),
            popped == (old(self)@.modes.len() > 1),
    {
        self.modes.dismiss()
    }

    /// Completes opening `path` with what enumerating it reported. On
    /// failure the listing shown stays as it was and an error layer is put
    /// on top.
    pub fn finish_enter(&mut self, path: String, found: Result<Vec<RawEntry>, AccessError>) -> (ok:
        bool)
        requires
            old(self).wf(),
        ensures
            final(self).wf(),
            ok == found is Ok,
            found matches Ok(raws) ==> final(self)@ == (ExplorerModel {
                nav: entered(old(self)@.nav, path@, raw_views(raws@)),
                ..old(self)@
            }),
            found matches Err(e) ==> final(self)@ == (ExplorerModel {
                modes: old(self)@.modes.push(UiMode::ErrorOverlay),
                error: Some(e),
                ..old(self)@
            }),
    {
        match self.nav.enter(path, found) {
            Ok(()) => true,
            Err(e) => {
                self.modes.open_error();
                self.error = Some(e);
                false
            },
        }
    }

    /// Completes a step back with what enumerating the parent reported. At
    /// the root nothing changes; on failure the listing shown stays as it was
    /// and an error layer is put on top.
    pub fn finish_back(&mut self, found: Result<Vec<RawEntry>, AccessError>) -> (ok: bool)
        requires
            old(self).wf(),
        ensures
            final(self).wf(),
            old(self)@.nav.stack.len() == 1 ==> ok && final(self)@ == old(self)@,
            old(self)@.nav.stack.len() > 1 ==> ok == found is Ok,
            old(self)@.nav.stack.len() > 1 && found is Ok ==> final(self)@ == (ExplorerModel {
                nav: backed(old(self)@.nav, raw_views(found->Ok_0@)),
                ..old(self)@
            }),
            old(self)@.nav.stack.len() > 1 && found is Err ==> final(self)@ == (ExplorerModel {
                modes: old(self)@.modes.push(UiMode::ErrorOverlay),
                error: Some(found->Err_0),
                ..old(self)@
            }),
    {
        match self.nav.go_back(found) {
            Ok(_) => true,
            Err(e) => {
                self.modes.open_error();
                self.error = Some(e);
                false
            },
        }
    }
}

} // verus!
