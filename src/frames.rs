use vstd::prelude::*;
use crate::keys::Command;
use crate::modes::UiMode;

verus! {

/// What a layer's button does.
#[derive(Clone, Copy, Debug, PartialEq, Eq, Structural)]
pub enum ButtonAction {
    /// Carry out a command, as its key would.
    Run(Command),
    /// Remove the layer the button belongs to.
    Dismiss,
}

/// How a layer is framed: its title, its trailing buttons in order, and
/// whether it holds a text field (empty when the layer opens).
#[derive(Clone, Debug)]
pub struct Frame {
    pub title: String,
    pub buttons: Vec<(String, ButtonAction)>,
    pub text_input: bool,
}

/// The mathematical value of a [`Frame`].
pub struct FrameModel {
    pub title: Seq<char>,
    pub buttons: Seq<(Seq<char>, ButtonAction)>,
    pub text_input: bool,
}

impl View for Frame {
    type V = FrameModel;

    open spec fn view(&self) -> FrameModel {
        FrameModel {
            title: self.title@,
            buttons: self.buttons@.map_values(|b: (String, ButtonAction)| (b.0@, b.1)),
            text_input: self.text_input,
        }
    }
}

/// The frame of each kind of layer.
pub open spec fn frame_of(mode: UiMode) -> FrameModel {
    match mode {
        UiMode::Browsing => FrameModel {
            title: "Your Directories"@,
            buttons: seq![
                ("Exit"@, ButtonAction::Run(Command::Quit)),
                ("Help"@, ButtonAction::Run(Command::OpenHelp)),
                ("Search"@, ButtonAction::Run(Command::OpenSearch)),
            ],
            text_input: false,
        },
        UiMode::HelpOverlay => FrameModel {
            title: "Help:"@,
            buttons: seq![("Exit"@, ButtonAction::Dismiss)],
            text_input: false,
        },
        UiMode::SearchOverlay => FrameModel {
            title: "Search"@,
            buttons: seq![("Exit"@, ButtonAction::Dismiss)],
            text_input: true,
        },
        UiMode::ErrorOverlay => FrameModel {
            title: "Error"@,
            buttons: seq![("OK"@, ButtonAction::Dismiss)],
            text_input: false,
        },
    }
}

/// The frame to draw around a layer of the given kind.
pub fn layer_frame(mode: UiMode) -> (f: Frame)
    ensures
        f@ == frame_of(mode),
{
    let mut buttons: Vec<(String, ButtonAction)> = Vec::new();
    let title;
    let mut text_input = false;
    match mode {
        UiMode::Browsing => {
            title = String::from_str("Your Directories");
            buttons.push((String::from_str("Exit"), ButtonAction::Run(Command::Quit)));
            buttons.push((String::from_str("Help"), ButtonAction::Run(Command::OpenHelp)));
            buttons.push((String::from_str("Search"), ButtonAction::Run(Command::OpenSearch)));
        },
        UiMode::HelpOverlay => {
            title = String::from_str("Help:");
            buttons.push((String::from_str("Exit"), ButtonAction::Dismiss));
        },
        UiMode::SearchOverlay => {
            title = String::from_str("Search");
            buttons.push((String::from_str("Exit"), ButtonAction::Dismiss));
            text_input = true;
        },
        UiMode::ErrorOverlay => {
            title = String::from_str("Error");
            buttons.push((String::from_str("OK"), ButtonAction::Dismiss));
        },
    }
    let f = Frame { title, buttons, text_input };
    assert(f@.buttons =~= frame_of(mode).buttons);
    f
}

} // verus!
