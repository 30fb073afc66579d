use vstd::prelude::*;
use crate::entry::{EntryKind, RawEntry};
use crate::listing::{lemma_listing_in, listing_in, listing_of, raw_views, Listing, ListingModel};

verus! {

/// Enumeration of a directory was denied, or the directory no longer exists.
#[derive(Clone, Debug)]
pub struct AccessError {
    pub path: String,
    pub reason: String,
}

/// The directory given at startup cannot be listed.
#[derive(Clone, Debug)]
pub struct InvalidRootError {
    pub path: String,
    pub reason: String,
}

/// What a step back did when it succeeded.
#[derive(Clone, Copy, Debug, PartialEq, Eq, Structural)]
pub enum BackOutcome {
    /// Already at the root: nothing changed.
    NoOp,
    /// The top of the history was left and its parent listed again.
    Moved,
}

/// Where the browser is: the history of visited directories, the last of
/// which is shown, and that directory's listing.
#[derive(Clone, Debug)]
pub struct NavigationState {
    stack: Vec<String>,
    listing: Listing,
}

/// The mathematical value of a [`NavigationState`].
pub struct NavModel {
    pub stack: Seq<Seq<char>>,
    pub listing: ListingModel,
}

/// A navigation state is well formed when its history is never empty and
/// the listing shown is one of the directory on top of it.
pub open spec fn nav_wf(m: NavModel) -> bool {
    m.stack.len() >= 1 && listing_in(m.listing, m.stack.last())
}

/// The state after entering `path`, whose enumeration reported `raws`.
pub open spec fn entered(m: NavModel, path: Seq<char>, raws: Seq<(Seq<char>, EntryKind)>) -> NavModel {
    NavModel { stack: m.stack.push(path), listing: listing_of(path, raws) }
}

/// The state after a step back, when the parent's enumeration reported `raws`.
pub open spec fn backed(m: NavModel, raws: Seq<(Seq<char>, EntryKind)>) -> NavModel {
    if m.stack.len() <= 1 {
        m
    } else {
        NavModel {
            stack: m.stack.drop_last(),
            listing: listing_of(m.stack.drop_last().last(), raws),
        }
    }
}

/// One navigation call as the history sees it: the path entered or a step
/// back, with what enumeration reported (`None` for a failure).
pub enum NavOp {
    Enter(Seq<char>, Option<Seq<(Seq<char>, EntryKind)>>),
    Back(Option<Seq<(Seq<char>, EntryKind)>>),
}

/// The state after one navigation call: a failed enumeration changes nothing.
pub open spec fn apply_op(m: NavModel, op: NavOp) -> NavModel {
    match op {
        NavOp::Enter(path, Some(raws)) => entered(m, path, raws),
        NavOp::Back(Some(raws)) => backed(m, raws),
        _ => m,
    }
}

/// The state after a sequence of navigation calls, the first applied first.
pub open spec fn run_ops(m: NavModel, ops: Seq<NavOp>) -> NavModel
    decreases ops.len(),
{
    if ops.len() == 0 {
        m
    } else {
        apply_op(run_ops(m, ops.drop_last()), ops.last())
    }
}

/// Whatever sequence of entering and stepping back is made, the history is
/// never empty and the listing shown is that of the directory on top of it,
/// which is the current path.
pub proof fn lemma_current_is_top(m: NavModel, ops: Seq<NavOp>)
    requires
        nav_wf(m),
    ensures
        nav_wf(run_ops(m, ops)),
    decreases ops.len(),
{
    if ops.len() > 0 {
        lemma_current_is_top(m, ops.drop_last());
        let before = run_ops(m, ops.drop_last());
        match ops.last() {
            NavOp::Enter(path, Some(raws)) => {
                lemma_listing_in(path, raws);
            },
            NavOp::Back(Some(raws)) => {
                if before.stack.len() > 1 {
                    lemma_listing_in(before.stack.drop_last().last(), raws);
                }
            },
            _ => {},
        }
    }
}

impl View for NavigationState {
    type V = NavModel;

    closed spec fn view(&self) -> NavModel {
        NavModel {
            stack: self.stack@.map_values(|s: String| s@),
            listing: self.listing@,
        }
    }
}

impl NavigationState {
    pub open spec fn wf(&self) -> bool {
        nav_wf(self@)
    }

    /// Starts at `root`, given what enumerating it reported; a root that
    /// cannot be listed is refused.
    pub fn start(root: String, found: Result<Vec<RawEntry>, AccessError>) -> (r: Result<
        NavigationState,
        InvalidRootError,
    >)
        ensures
            found is Ok <==> r is Ok,
            r matches Ok(s) ==> s.wf() && s@ == (NavModel {
                stack: seq![root@],
                listing: listing_of(root@, raw_views(found->Ok_0@)),
            }),
            r matches Err(e) ==> e.path == found->Err_0.path && e.reason == found->Err_0.reason,
    {
        match found {
            Ok(raws) => {
                let listing = Listing::from_raw(root.as_str(), &raws);
                let mut stack: Vec<String> = Vec::new();
                stack.push(root);
                let s = NavigationState { stack, listing };
                proof {
                    lemma_listing_in(s.stack@[0]@, raw_views(raws@));
                    assert(s@.stack =~= seq![s.stack@[0]@]);
                }
                Ok(s)
            },
            Err(e) => Err(InvalidRootError { path: e.path, reason: e.reason }),
        }
    }

    /// The directory shown: the top of the history.
    pub fn current_path(&self) -> (r: &String)
        requires
            self.wf(),
        ensures
            r@ == self@.stack.last(),
    {
        &self.stack[self.stack.len() - 1]
    }

    /// How many directories the history holds.
    pub fn depth(&self) -> (n: usize)
        ensures
            n == self@.stack.len(),
    {
        self.stack.len()
    }

    /// The history of visited directories, the root first.
    pub fn stack(&self) -> (r: &Vec<String>)
        ensures
            r@.map_values(|s: String| s@) == self@.stack,
    {
        &self.stack
    }

    /// The listing shown.
    pub fn listing(&self) -> (r: &Listing)
        ensures
            r@ == self@.listing,
    {
        &self.listing
    }

    /// Opens `path`, given what enumerating it reported: on success the path
    /// is pushed and its listing shown; on failure nothing changes and the
    /// error is handed back.
    pub fn enter(&mut self, path: String, found: Result<Vec<RawEntry>, AccessError>) -> (r: Result<
        (),
        AccessError,
    >)
        requires
            old(self).wf(),
        ensures
            final(self).wf(),
            found is Ok <==> r is Ok,
            found matches Ok(raws) ==> final(self)@ == entered(old(self)@, path@, raw_views(raws@)),
            found is Err ==> final(self)@ == old(self)@ && r == Err::<(), AccessError>(found->Err_0),
    {
        match found {
            Ok(raws) => {
                let ghost p = path@;
                let listing = Listing::from_raw(path.as_str(), &raws);
                self.stack.push(path);
                self.listing = listing;
                proof {
                    lemma_listing_in(p, raw_views(raws@));
                    assert(self@.stack =~= old(self)@.stack.push(p));
                }
                Ok(())
            },
            Err(e) => Err(e),
        }
    }

    /// The directory a step back would return to, or `None` at the root.
    pub fn back_target(&self) -> (r: Option<String>)
        requires
            self.wf(),
        ensures
            self@.stack.len() == 1 <==> r is None,
            r matches Some(p) ==> p@ == self@.stack.drop_last().last(),
    {
        let n = self.stack.len();
        if n <= 1 {
            None
        } else {
            Some(self.stack[n - 2].clone())
        }
    }

    /// Steps back in the history, given what enumerating the parent
    /// reported. At the root this does nothing and `found` is not looked at;
    /// a failed enumeration leaves everything as it was.
    pub fn go_back(&mut self, found: Result<Vec<RawEntry>, AccessError>) -> (r: Result<
        BackOutcome,
        AccessError,
    >)
        requires
            old(self).wf(),
        ensures
            final(self).wf(),
            old(self)@.stack.len() == 1 ==> r == Ok::<BackOutcome, AccessError>(BackOutcome::NoOp)
                && final(self)@ == old(self)@,
            old(self)@.stack.len() > 1 ==> (found is Ok <==> r == Ok::<BackOutcome, AccessError>(
                BackOutcome::Moved,
            )),
            old(self)@.stack.len() > 1 && found is Ok ==> final(self)@ == backed(
                old(self)@,
                raw_views(found->Ok_0@),
            ),
            old(self)@.stack.len() > 1 && found is Err ==> final(self)@ == old(self)@ && r
                == Err::<BackOutcome, AccessError>(found->Err_0),
    {
        let n = self.stack.len();
        if n <= 1 {
            return Ok(BackOutcome::NoOp);
        }
        match found {
            Ok(raws) => {
                let listing = Listing::from_raw(self.stack[n - 2].as_str(), &raws);
                let ghost parent = self.stack@[n - 2]@;
                self.stack.pop();
                self.listing = listing;
                proof {
                    lemma_listing_in(parent, raw_views(raws@));
                    assert(self@.stack =~= old(self)@.stack.drop_last());
                }
                Ok(BackOutcome::Moved)
            },
            Err(e) => Err(e),
        }
    }
}

} // verus!
