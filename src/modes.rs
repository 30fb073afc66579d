use vstd::prelude::*;

verus! {

/// Which layer receives input.
#[derive(Clone, Copy, Debug, PartialEq, Eq, Structural)]
pub enum UiMode {
    /// The directory listing: the bottom layer, never removed.
    Browsing,
    /// The help text.
    HelpOverlay,
    /// The search field.
    SearchOverlay,
    /// A dismissible report of a failed enumeration.
    ErrorOverlay,
}

/// The layers on screen, the bottom first.
#[derive(Clone, Debug)]
pub struct ModeStack {
    layers: Vec<UiMode>,
}

/// A layer stack is well formed when browsing is at its bottom and nowhere
/// else.
pub open spec fn modes_wf(s: Seq<UiMode>) -> bool {
    &&& s.len() >= 1
    &&& s[0] == UiMode::Browsing
    &&& forall|i: int| 1 <= i < s.len() ==> s[i] != UiMode::Browsing
}

/// The layers after dismissing the top one; the browsing layer stays.
pub open spec fn dismissed(s: Seq<UiMode>) -> Seq<UiMode> {
    if s.len() > 1 {
        s.drop_last()
    } else {
        s
    }
}

impl View for ModeStack {
    type V = Seq<UiMode>;

    closed spec fn view(&self) -> Seq<UiMode> {
        self.layers@
    }
}

impl ModeStack {
    pub open spec fn wf(&self) -> bool {
        modes_wf(self@)
    }

    /// The browsing layer alone.
    pub fn new() -> (s: ModeStack)
        ensures
            s.wf(),
            s@ == seq![UiMode::Browsing],
    {
        let mut layers: Vec<UiMode> = Vec::new();
        layers.push(UiMode::Browsing);
        ModeStack { layers }
    }

    /// The layer receiving input.
    pub fn current(&self) -> (m: UiMode)
        requires
            self.wf(),
        ensures
            m == self@.last(),
    {
        self.layers[self.layers.len() - 1]
    }

    /// How many layers are on screen.
    pub fn depth(&self) -> (n: usize)
        ensures
            n == self@.len(),
    {
        self.layers.len()
    }

    /// The layers on screen, the bottom first.
    pub fn layers(&self) -> (r: &Vec<UiMode>)
        ensures
            r@ == self@,
    {
        &self.layers
    }

    fn push_overlay(&mut self, m: UiMode)
        requires
            old(self).wf(),
            m != UiMode::Browsing,
        ensures
            final(self).wf(),
            final(self)@ == old(self)@.push(m),
    {
        self.layers.push(m);
    }

    /// Puts the help text on top.
    pub fn open_help(&mut self)
        requires
            old(self).wf(),
        ensures
            final(self).wf(),
            final(self)@ == old(self)@.push(UiMode::HelpOverlay),
    {
        self.push_overlay(UiMode::HelpOverlay);
    }

    /// Puts the search field on top.
    pub fn open_search(&mut self)
        requires
            old(self).wf(),
        ensures
            final(self).wf(),
            final(self)@ == old(self)@.push(UiMode::SearchOverlay),
    {
        self.push_overlay(UiMode::SearchOverlay);
    }

    /// Puts an error report on top.
    pub fn open_error(&mut self)
        requires
            old(self).wf(),
        ensures
            final(self).wf(),
            final(self)@ == old(self)@.push(UiMode::ErrorOverlay),
    {
        self.push_overlay(UiMode::ErrorOverlay);
    }

    /// Removes the top layer and reports whether one was removed: with
    /// browsing alone on screen nothing happens.
    pub fn dismiss(&mut self) -> (popped: bool)
        requires
            old(self).wf(),
        ensures
            final(self).wf(),
            final(self)@ == dismissed(old(self)@),
            popped == (old(self)@.len() > 1),
    {
        if self.layers.len() > 1 {
            self.layers.pop();
            true
        } else {
            false
        }
    }
}

} // verus!
