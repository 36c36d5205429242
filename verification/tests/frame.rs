use termusic::frame::{frame_ids, is_mounted, plan_frame, Frame, Place, Popup, Screen};
use termusic::model::{Id, IdColorEditor};

fn center(id: Id, width: u16, height: u16) -> Popup {
    Popup { id, place: Place::Center { width, height } }
}

fn message() -> Popup {
    Popup { id: Id::MessagePopup, place: Place::TopRight { width: 32, height: 15 } }
}

fn main_with(popups: Vec<Popup>) -> Frame {
    Frame { screen: Screen::Main, panes: true, popups }
}

#[test]
fn the_main_screen_without_popups() {
    assert_eq!(plan_frame(&vec![]), main_with(vec![]));
    assert_eq!(plan_frame(&vec![Id::Library, Id::Playlist, Id::Label]), main_with(vec![]));
}

#[test]
fn each_popup_has_its_place() {
    assert_eq!(plan_frame(&vec![Id::QuitPopup]), main_with(vec![center(Id::QuitPopup, 30, 10)]));
    assert_eq!(plan_frame(&vec![Id::HelpPopup]), main_with(vec![center(Id::HelpPopup, 60, 90)]));
    assert_eq!(
        plan_frame(&vec![Id::DeleteConfirmRadioPopup]),
        main_with(vec![center(Id::DeleteConfirmRadioPopup, 30, 10)])
    );
    assert_eq!(
        plan_frame(&vec![Id::DeleteConfirmInputPopup]),
        main_with(vec![center(Id::DeleteConfirmInputPopup, 30, 10)])
    );
    assert_eq!(
        plan_frame(&vec![Id::YoutubeSearchInputPopup]),
        main_with(vec![center(Id::YoutubeSearchInputPopup, 30, 10)])
    );
    assert_eq!(
        plan_frame(&vec![Id::YoutubeSearchTablePopup]),
        main_with(vec![center(Id::YoutubeSearchTablePopup, 65, 68)])
    );
    assert_eq!(plan_frame(&vec![Id::MessagePopup]), main_with(vec![message()]));
    assert_eq!(plan_frame(&vec![Id::ErrorPopup]), main_with(vec![center(Id::ErrorPopup, 50, 10)]));
}

#[test]
fn a_general_search_is_drawn_in_two_parts() {
    let parts = vec![
        Popup { id: Id::GeneralSearchInput, place: Place::CenterInput { width: 65, height: 68 } },
        Popup { id: Id::GeneralSearchTable, place: Place::CenterTable { width: 65, height: 68 } },
    ];
    assert_eq!(plan_frame(&vec![Id::GeneralSearchInput]), main_with(parts.clone()));
    assert_eq!(
        plan_frame(&vec![Id::GeneralSearchTable, Id::GeneralSearchInput]),
        main_with(parts)
    );
    assert_eq!(plan_frame(&vec![Id::GeneralSearchTable]), main_with(vec![]));
}

#[test]
fn only_the_first_popup_is_drawn() {
    let mounted = vec![
        Id::YoutubeSearchTablePopup,
        Id::GeneralSearchInput,
        Id::HelpPopup,
        Id::DeleteConfirmInputPopup,
    ];
    assert_eq!(plan_frame(&mounted), main_with(vec![center(Id::HelpPopup, 60, 90)]));
    let mounted = vec![Id::YoutubeSearchTablePopup, Id::YoutubeSearchInputPopup];
    assert_eq!(plan_frame(&mounted), main_with(vec![center(Id::YoutubeSearchInputPopup, 30, 10)]));
    let mounted = vec![Id::HelpPopup, Id::QuitPopup];
    assert_eq!(plan_frame(&mounted), main_with(vec![center(Id::QuitPopup, 30, 10)]));
}

#[test]
fn message_and_error_go_over_the_popup() {
    let mounted = vec![Id::ErrorPopup, Id::MessagePopup, Id::QuitPopup];
    assert_eq!(
        plan_frame(&mounted),
        main_with(vec![center(Id::QuitPopup, 30, 10), message(), center(Id::ErrorPopup, 50, 10)])
    );
}

#[test]
fn the_tag_editor_goes_before_the_main_screen() {
    let mounted = vec![Id::QuitPopup, Id::TETableLyricOptions, Id::TELabelHint];
    assert_eq!(
        plan_frame(&mounted),
        Frame { screen: Screen::TagEditor, panes: true, popups: vec![] }
    );
    let mounted = vec![
        Id::TETableLyricOptions,
        Id::TELabelHint,
        Id::ErrorPopup,
        Id::TEHelpPopup,
        Id::MessagePopup,
    ];
    assert_eq!(
        plan_frame(&mounted),
        Frame {
            screen: Screen::TagEditor,
            panes: true,
            popups: vec![center(Id::TEHelpPopup, 50, 70), message(), center(Id::ErrorPopup, 50, 10)],
        }
    );
}

#[test]
fn the_tag_editor_without_its_hint_draws_nothing() {
    let mounted = vec![Id::TETableLyricOptions, Id::ErrorPopup, Id::TEHelpPopup];
    assert_eq!(
        plan_frame(&mounted),
        Frame { screen: Screen::TagEditor, panes: false, popups: vec![] }
    );
}

#[test]
fn the_colour_editor_goes_before_all() {
    let mounted = vec![
        Id::TETableLyricOptions,
        Id::TELabelHint,
        Id::ErrorPopup,
        Id::QuitPopup,
        Id::ColorEditor(IdColorEditor::ThemeSelect),
    ];
    assert_eq!(
        plan_frame(&mounted),
        Frame { screen: Screen::ColorEditor, panes: true, popups: vec![] }
    );
    let mounted = vec![Id::ColorEditor(IdColorEditor::LibraryLabel), Id::QuitPopup];
    assert_eq!(plan_frame(&mounted), main_with(vec![center(Id::QuitPopup, 30, 10)]));
}

#[test]
fn what_is_mounted_is_found() {
    let mounted = vec![Id::Library, Id::ColorEditor(IdColorEditor::LibraryBorder)];
    assert!(is_mounted(&mounted, Id::Library));
    assert!(is_mounted(&mounted, Id::ColorEditor(IdColorEditor::LibraryBorder)));
    assert!(!is_mounted(&mounted, Id::ColorEditor(IdColorEditor::LibraryLabel)));
    assert!(!is_mounted(&mounted, Id::Playlist));
    assert!(!is_mounted(&vec![], Id::Library));
}

#[test]
fn the_frame_depends_on_thirteen_places() {
    let ids = frame_ids();
    assert_eq!(ids.len(), 13);
    assert!(ids.contains(&Id::GeneralSearchInput));
    assert!(!ids.contains(&Id::GeneralSearchTable));
    assert!(ids.contains(&Id::ColorEditor(IdColorEditor::ThemeSelect)));
}
