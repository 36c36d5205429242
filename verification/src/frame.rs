//! What a frame of the screen shows: which of the three screens, and which
//! popups over it, given what is mounted.

use crate::model::{Id, IdColorEditor};
use vstd::prelude::*;

verus! {

/// The three screens.
#[derive(Debug, Clone, Copy, PartialEq, Eq)]
pub enum Screen {
    /// Library, playlist, progress and lyrics.
    Main,
    TagEditor,
    ColorEditor,
}

/// Where a popup is drawn. Widths and heights are hundredths of the screen's.
#[derive(Debug, Clone, Copy, PartialEq, Eq)]
pub enum Place {
    /// In the middle of the screen.
    Center { width: u16, height: u16 },
    /// In the three lines at the top of the area in the middle.
    CenterInput { width: u16, height: u16 },
    /// In the area in the middle, below its three lines at the top.
    CenterTable { width: u16, height: u16 },
    /// In the upper right corner.
    TopRight { width: u16, height: u16 },
}

/// A popup to draw: what is mounted where, and the place it takes.
#[derive(Debug, Clone, Copy, PartialEq, Eq)]
pub struct Popup {
    pub id: Id,
    pub place: Place,
}

/// What a frame shows.
#[derive(Debug, Clone, PartialEq, Eq)]
pub struct Frame {
    pub screen: Screen,
    /// Whether the panes of the screen are drawn at all.
    pub panes: bool,
    /// The popups over the panes, in the order in which they are drawn.
    pub popups: Vec<Popup>,
}

/// What a frame holds.
pub struct FrameModel {
    pub screen: Screen,
    pub panes: bool,
    pub popups: Seq<Popup>,
}

impl View for Frame {
    type V = FrameModel;

    open spec fn view(&self) -> FrameModel {
        FrameModel { screen: self.screen, panes: self.panes, popups: self.popups@ }
    }
}

/// A popup in the middle of the screen.
pub open spec fn centered(id: Id, width: u16, height: u16) -> Popup {
    Popup { id, place: Place::Center { width, height } }
}

/// The popup of messages, in the upper right corner.
pub open spec fn message_popup() -> Popup {
    Popup { id: Id::MessagePopup, place: Place::TopRight { width: 32, height: 15 } }
}

/// The popup of errors.
pub open spec fn error_popup() -> Popup {
    centered(Id::ErrorPopup, 50, 10)
}

/// The popups of the main screen of which only one is drawn, each with the
/// parts it is drawn in; the earlier goes before the later.
pub open spec fn exclusive_popups() -> Seq<Seq<Popup>> {
    seq![
        seq![centered(Id::QuitPopup, 30, 10)],
        seq![centered(Id::HelpPopup, 60, 90)],
        seq![centered(Id::DeleteConfirmRadioPopup, 30, 10)],
        seq![centered(Id::DeleteConfirmInputPopup, 30, 10)],
        seq![
            Popup { id: Id::GeneralSearchInput, place: Place::CenterInput { width: 65, height: 68 } },
            Popup { id: Id::GeneralSearchTable, place: Place::CenterTable { width: 65, height: 68 } },
        ],
        seq![centered(Id::YoutubeSearchInputPopup, 30, 10)],
        seq![centered(Id::YoutubeSearchTablePopup, 65, 68)],
    ]
}

/// The first of `groups` whose first part is mounted; nothing if none is.
pub open spec fn first_shown(groups: Seq<Seq<Popup>>, mounted: Seq<Id>) -> Seq<Popup>
    decreases groups.len(),
{
    if groups.len() == 0 {
        Seq::empty()
    } else if mounted.contains(groups[0][0].id) {
        groups[0]
    } else {
        first_shown(groups.drop_first(), mounted)
    }
}

/// The popup, if it is mounted.
pub open spec fn shown(popup: Popup, mounted: Seq<Id>) -> Seq<Popup> {
    if mounted.contains(popup.id) {
        seq![popup]
    } else {
        Seq::empty()
    }
}

/// What a frame shows, given what is mounted. The colour editor goes before
/// the tag editor, and both before the main screen. The colour editor has no
/// popups. The tag editor is drawn only with its hint mounted, and then with
/// its help, the message and the error over it. The main screen has the
/// first of its popups that is mounted, and the message and the error over
/// that.
pub open spec fn frame_of(mounted: Seq<Id>) -> FrameModel {
    if mounted.contains(Id::ColorEditor(IdColorEditor::ThemeSelect)) {
        FrameModel { screen: Screen::ColorEditor, panes: true, popups: Seq::empty() }
    } else if mounted.contains(Id::TETableLyricOptions) {
        if mounted.contains(Id::TELabelHint) {
            FrameModel {
                screen: Screen::TagEditor,
                panes: true,
                popups: shown(centered(Id::TEHelpPopup, 50, 70), mounted) + shown(
                    message_popup(),
                    mounted,
                ) + shown(error_popup(), mounted),
            }
        } else {
            FrameModel { screen: Screen::TagEditor, panes: false, popups: Seq::empty() }
        }
    } else {
        FrameModel {
            screen: Screen::Main,
            panes: true,
            popups: first_shown(exclusive_popups(), mounted) + shown(message_popup(), mounted)
                + shown(error_popup(), mounted),
        }
    }
}

/// Whether `id` is among `mounted`.
pub fn is_mounted(mounted: &Vec<Id>, id: Id) -> (found: bool)
    ensures
        found == mounted@.contains(id),
{
    let mut i: usize = 0;
    while i < mounted.len()
        invariant
            i <= mounted@.len(),
            forall|k: int| 0 <= k < i ==> mounted@[k] != id,
        decreases mounted@.len() - i,
    {
        if mounted[i] == id {
            return true;
        }
        i += 1;
    }
    false
}

/// A popup in the middle of the screen.
fn center(id: Id, width: u16, height: u16) -> (popup: Popup)
    ensures
        popup == centered(id, width, height),
{
    Popup { id, place: Place::Center { width, height } }
}

/// What a list of groups holds.
pub open spec fn groups_model(groups: Seq<Vec<Popup>>) -> Seq<Seq<Popup>> {
    groups.map_values(|g: Vec<Popup>| g@)
}

/// The popups of the main screen of which only one is drawn.
fn popup_groups() -> (groups: Vec<Vec<Popup>>)
    ensures
        groups_model(groups@) == exclusive_popups(),
{
    let groups = vec![
        vec![center(Id::QuitPopup, 30, 10)],
        vec![center(Id::HelpPopup, 60, 90)],
        vec![center(Id::DeleteConfirmRadioPopup, 30, 10)],
        vec![center(Id::DeleteConfirmInputPopup, 30, 10)],
        vec![
            Popup { id: Id::GeneralSearchInput, place: Place::CenterInput { width: 65, height: 68 } },
            Popup { id: Id::GeneralSearchTable, place: Place::CenterTable { width: 65, height: 68 } },
        ],
        vec![center(Id::YoutubeSearchInputPopup, 30, 10)],
        vec![center(Id::YoutubeSearchTablePopup, 65, 68)],
    ];
    proof {
        let model = groups_model(groups@);
        assert(model.len() == 7);
        assert(model[0] =~= exclusive_popups()[0]);
        assert(model[1] =~= exclusive_popups()[1]);
        assert(model[2] =~= exclusive_popups()[2]);
        assert(model[3] =~= exclusive_popups()[3]);
        assert(model[4] =~= exclusive_popups()[4]);
        assert(model[5] =~= exclusive_popups()[5]);
        assert(model[6] =~= exclusive_popups()[6]);
        assert(model =~= exclusive_popups());
    }
    groups
}

/// The first of the main screen's popups that is mounted.
fn first_popup(mounted: &Vec<Id>) -> (popups: Vec<Popup>)
    ensures
        popups@ == first_shown(exclusive_popups(), mounted@),
{
    let mut groups = popup_groups();
    let mut i: usize = 0;
    assert(exclusive_popups().skip(0) =~= exclusive_popups());
    while i < groups.len()
        invariant
            i <= groups@.len(),
            groups_model(groups@) == exclusive_popups(),
            first_shown(exclusive_popups(), mounted@) == first_shown(
                exclusive_popups().skip(i as int),
                mounted@,
            ),
        decreases groups@.len() - i,
    {
        let ghost rest = exclusive_popups().skip(i as int);
        assert(rest[0] == groups@[i as int]@);
        assert(rest.drop_first() =~= exclusive_popups().skip(i + 1));
        assert(rest[0].len() > 0);
        if is_mounted(mounted, groups[i][0].id) {
            return groups.remove(i);
        }
        i += 1;
    }
    Vec::new()
}

/// Adds the popup if it is mounted.
fn push_shown(popups: &mut Vec<Popup>, popup: Popup, mounted: &Vec<Id>)
    ensures
        final(popups)@ == old(popups)@ + shown(popup, mounted@),
{
    if is_mounted(mounted, popup.id) {
        popups.push(popup);
    }
    assert(popups@ =~= old(popups)@ + shown(popup, mounted@));
}

/// What a frame shows, given what is mounted.
pub fn plan_frame(mounted: &Vec<Id>) -> (frame: Frame)
    ensures
        frame@ == frame_of(mounted@),
{
    let message = Popup { id: Id::MessagePopup, place: Place::TopRight { width: 32, height: 15 } };
    let error = center(Id::ErrorPopup, 50, 10);
    if is_mounted(mounted, Id::ColorEditor(IdColorEditor::ThemeSelect)) {
        Frame { screen: Screen::ColorEditor, panes: true, popups: Vec::new() }
    } else if is_mounted(mounted, Id::TETableLyricOptions) {
        if is_mounted(mounted, Id::TELabelHint) {
            let mut popups: Vec<Popup> = Vec::new();
            push_shown(&mut popups, center(Id::TEHelpPopup, 50, 70), mounted);
            push_shown(&mut popups, message, mounted);
            push_shown(&mut popups, error, mounted);
            assert(popups@ =~= frame_of(mounted@).popups);
            Frame { screen: Screen::TagEditor, panes: true, popups }
        } else {
            Frame { screen: Screen::TagEditor, panes: false, popups: Vec::new() }
        }
    } else {
        let mut popups = first_popup(mounted);
        push_shown(&mut popups, message, mounted);
        push_shown(&mut popups, error, mounted);
        Frame { screen: Screen::Main, panes: true, popups }
    }
}

/// The places whose being mounted decides what a frame shows.
pub fn frame_ids() -> (ids: Vec<Id>)
    ensures
        ids@ == seq![
            Id::ColorEditor(IdColorEditor::ThemeSelect),
            Id::TETableLyricOptions,
            Id::TELabelHint,
            Id::TEHelpPopup,
            Id::QuitPopup,
            Id::HelpPopup,
            Id::DeleteConfirmRadioPopup,
            Id::DeleteConfirmInputPopup,
            Id::GeneralSearchInput,
            Id::YoutubeSearchInputPopup,
            Id::YoutubeSearchTablePopup,
            Id::MessagePopup,
            Id::ErrorPopup,
        ],
{
    vec![
        Id::ColorEditor(IdColorEditor::ThemeSelect),
        Id::TETableLyricOptions,
        Id::TELabelHint,
        Id::TEHelpPopup,
        Id::QuitPopup,
        Id::HelpPopup,
        Id::DeleteConfirmRadioPopup,
        Id::DeleteConfirmInputPopup,
        Id::GeneralSearchInput,
        Id::YoutubeSearchInputPopup,
        Id::YoutubeSearchTablePopup,
        Id::MessagePopup,
        Id::ErrorPopup,
    ]
}

} // verus!
