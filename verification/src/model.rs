//! What is mounted on the screen, as a list of commands for the terminal
//! layer.
//!
//! The model mounts nothing itself. Each call adds the commands that bring
//! the screen to where it should be; the terminal layer takes them with
//! `take_commands` and carries them out in order, as upserts into its own
//! registry of components. Where a command can fail in a way that the model
//! wants to know of, the terminal layer reports back before it goes on.

use crate::frame::{frame_of, plan_frame, Frame};
use crate::song::{lines, sorted_descriptions, sorted_texts, SongModel, SongTags};
use crate::text::{text_of, texts_model};
use vstd::prelude::*;
use vstd::string::StringExecFns;

verus! {

/// The parts of the colour editor.
#[derive(Debug, Clone, Copy, PartialEq, Eq, Hash, Structural)]
pub enum IdColorEditor {
    LabelHint,
    ThemeSelect,
    LibraryLabel,
    LibraryForeground,
    LibraryBackground,
    LibraryBorder,
    LibraryHighlight,
}

/// The places on the screen where a component can be mounted.
#[derive(Debug, Clone, Copy, PartialEq, Eq, Hash, Structural)]
pub enum Id {
    Library,
    Playlist,
    Progress,
    Lyric,
    Label,
    GlobalListener,
    ErrorPopup,
    QuitPopup,
    HelpPopup,
    DeleteConfirmRadioPopup,
    DeleteConfirmInputPopup,
    GeneralSearchInput,
    GeneralSearchTable,
    YoutubeSearchInputPopup,
    YoutubeSearchTablePopup,
    MessagePopup,
    TELabelHint,
    TEInputArtist,
    TEInputTitle,
    TERadioTag,
    TETableLyricOptions,
    TESelectLyric,
    TECounterDelete,
    TETextareaLyric,
    TEHelpPopup,
    ColorEditor(IdColorEditor),
}

/// What a general search looks through.
#[derive(Debug, Clone, Copy, PartialEq, Eq)]
pub enum Source {
    Library,
    Playlist,
}

/// The colour of a label's text.
#[derive(Debug, Clone, Copy, PartialEq, Eq)]
pub enum Tint {
    Cyan,
    Magenta,
}

/// The components that the model mounts, each with what it is made from.
#[derive(Debug, Clone, PartialEq, Eq)]
pub enum Widget {
    MusicLibrary,
    Playlist,
    Progress,
    Lyric,
    /// A line of bold text, aligned to the left.
    Label { text: String, tint: Tint },
    GlobalListener,
    ErrorPopup(String),
    QuitPopup,
    HelpPopup,
    DeleteConfirmRadioPopup,
    DeleteConfirmInputPopup,
    GSInputPopup(Source),
    GSTablePopup(Source),
    YSInputPopup,
    YSTablePopup,
    MessagePopup { title: String, text: String },
    TEInputArtist,
    TEInputTitle,
    TERadioTag,
    TETableLyricOptions,
    TESelectLyric,
    /// The counter of lyrics that can be deleted, with the count it begins at.
    TECounterDelete(isize),
    TETextareaLyric,
    TEHelpPopup,
    ThemeSelectTable,
    CELibraryTitle,
    CELibraryForeground,
    CELibraryBackground,
    CELibraryBorder,
    CELibraryHighlight,
}

/// What a component is made from.
pub enum WidgetModel {
    MusicLibrary,
    Playlist,
    Progress,
    Lyric,
    Label { text: Seq<char>, tint: Tint },
    GlobalListener,
    ErrorPopup(Seq<char>),
    QuitPopup,
    HelpPopup,
    DeleteConfirmRadioPopup,
    DeleteConfirmInputPopup,
    GSInputPopup(Source),
    GSTablePopup(Source),
    YSInputPopup,
    YSTablePopup,
    MessagePopup { title: Seq<char>, text: Seq<char> },
    TEInputArtist,
    TEInputTitle,
    TERadioTag,
    TETableLyricOptions,
    TESelectLyric,
    TECounterDelete(isize),
    TETextareaLyric,
    TEHelpPopup,
    ThemeSelectTable,
    CELibraryTitle,
    CELibraryForeground,
    CELibraryBackground,
    CELibraryBorder,
    CELibraryHighlight,
}

impl View for Widget {
    type V = WidgetModel;

    open spec fn view(&self) -> WidgetModel {
        match *self {
            Widget::MusicLibrary => WidgetModel::MusicLibrary,
            Widget::Playlist => WidgetModel::Playlist,
            Widget::Progress => WidgetModel::Progress,
            Widget::Lyric => WidgetModel::Lyric,
            Widget::Label { text, tint } => WidgetModel::Label { text: text@, tint },
            Widget::GlobalListener => WidgetModel::GlobalListener,
            Widget::ErrorPopup(text) => WidgetModel::ErrorPopup(text@),
            Widget::QuitPopup => WidgetModel::QuitPopup,
            Widget::HelpPopup => WidgetModel::HelpPopup,
            Widget::DeleteConfirmRadioPopup => WidgetModel::DeleteConfirmRadioPopup,
            Widget::DeleteConfirmInputPopup => WidgetModel::DeleteConfirmInputPopup,
            Widget::GSInputPopup(source) => WidgetModel::GSInputPopup(source),
            Widget::GSTablePopup(source) => WidgetModel::GSTablePopup(source),
            Widget::YSInputPopup => WidgetModel::YSInputPopup,
            Widget::YSTablePopup => WidgetModel::YSTablePopup,
            Widget::MessagePopup { title, text } => WidgetModel::MessagePopup {
                title: title@,
                text: text@,
            },
            Widget::TEInputArtist => WidgetModel::TEInputArtist,
            Widget::TEInputTitle => WidgetModel::TEInputTitle,
            Widget::TERadioTag => WidgetModel::TERadioTag,
            Widget::TETableLyricOptions => WidgetModel::TETableLyricOptions,
            Widget::TESelectLyric => WidgetModel::TESelectLyric,
            Widget::TECounterDelete(count) => WidgetModel::TECounterDelete(count),
            Widget::TETextareaLyric => WidgetModel::TETextareaLyric,
            Widget::TEHelpPopup => WidgetModel::TEHelpPopup,
            Widget::ThemeSelectTable => WidgetModel::ThemeSelectTable,
            Widget::CELibraryTitle => WidgetModel::CELibraryTitle,
            Widget::CELibraryForeground => WidgetModel::CELibraryForeground,
            Widget::CELibraryBackground => WidgetModel::CELibraryBackground,
            Widget::CELibraryBorder => WidgetModel::CELibraryBorder,
            Widget::CELibraryHighlight => WidgetModel::CELibraryHighlight,
        }
    }
}

/// A setting of a mounted component.
#[derive(Debug, Clone, PartialEq, Eq)]
pub enum AttrSetting {
    /// The text that an input holds.
    Value(String),
    /// The number that a counter holds.
    Number(isize),
    /// The choices that a select offers.
    Choices(Vec<String>),
    /// The title, aligned to the left.
    Title(String),
    /// The lines of text that a text area shows.
    Lines(Vec<String>),
}

/// What a setting holds.
pub enum AttrModel {
    Value(Seq<char>),
    Number(isize),
    Choices(Seq<Seq<char>>),
    Title(Seq<char>),
    Lines(Seq<Seq<char>>),
}

impl View for AttrSetting {
    type V = AttrModel;

    open spec fn view(&self) -> AttrModel {
        match *self {
            AttrSetting::Value(text) => AttrModel::Value(text@),
            AttrSetting::Number(n) => AttrModel::Number(n),
            AttrSetting::Choices(texts) => AttrModel::Choices(texts_model(texts@)),
            AttrSetting::Title(text) => AttrModel::Title(text@),
            AttrSetting::Lines(texts) => AttrModel::Lines(texts_model(texts@)),
        }
    }
}

/// One command for the terminal layer.
#[derive(Debug, Clone, PartialEq, Eq)]
pub enum ViewCommand {
    /// Mount the component at the place, where nothing is mounted yet.
    Mount(Id, Widget),
    /// Mount the component at the place, instead of what is mounted there.
    Remount(Id, Widget),
    /// Take away what is mounted at the place, if anything is.
    Umount(Id),
    /// Give the focus to the place.
    Active(Id),
    /// Give the focus to the place, if something is mounted there.
    TryActive(Id),
    /// Stop handing events to subscribers.
    LockSubs,
    /// Hand events to subscribers again.
    UnlockSubs,
    /// Set what the component at the place holds.
    Attr(Id, AttrSetting),
    /// Take the cover picture off the screen. Where that fails, the failure
    /// is reported with `photo_clear_failed` before the next command is
    /// carried out.
    ClearPhoto,
    /// Draw the cover picture anew. Where that fails, the failure is reported
    /// with `photo_update_failed` before the next command is carried out.
    UpdatePhoto,
    /// Read the song at the path. What comes of it is reported with
    /// `song_loaded` or `song_load_failed` before the next command is carried
    /// out.
    LoadSong(String),
    /// Mark the theme in use in the table of themes.
    ThemeSelectSync,
    /// Load the tree of the library anew.
    ReloadLibrary,
    /// Load the playlist anew.
    ReloadPlaylist,
    /// Load the progress bar anew.
    ReloadProgress,
    /// Load the lyrics pane anew.
    ReloadLyric,
    /// Show the lyrics of the moment.
    UpdateLyric,
}

/// What a command holds.
pub enum CommandModel {
    Mount(Id, WidgetModel),
    Remount(Id, WidgetModel),
    Umount(Id),
    Active(Id),
    TryActive(Id),
    LockSubs,
    UnlockSubs,
    Attr(Id, AttrModel),
    ClearPhoto,
    UpdatePhoto,
    LoadSong(Seq<char>),
    ThemeSelectSync,
    ReloadLibrary,
    ReloadPlaylist,
    ReloadProgress,
    ReloadLyric,
    UpdateLyric,
}

impl View for ViewCommand {
    type V = CommandModel;

    open spec fn view(&self) -> CommandModel {
        match *self {
            ViewCommand::Mount(id, widget) => CommandModel::Mount(id, widget@),
            ViewCommand::Remount(id, widget) => CommandModel::Remount(id, widget@),
            ViewCommand::Umount(id) => CommandModel::Umount(id),
            ViewCommand::Active(id) => CommandModel::Active(id),
            ViewCommand::TryActive(id) => CommandModel::TryActive(id),
            ViewCommand::LockSubs => CommandModel::LockSubs,
            ViewCommand::UnlockSubs => CommandModel::UnlockSubs,
            ViewCommand::Attr(id, setting) => CommandModel::Attr(id, setting@),
            ViewCommand::ClearPhoto => CommandModel::ClearPhoto,
            ViewCommand::UpdatePhoto => CommandModel::UpdatePhoto,
            ViewCommand::LoadSong(path) => CommandModel::LoadSong(path@),
            ViewCommand::ThemeSelectSync => CommandModel::ThemeSelectSync,
            ViewCommand::ReloadLibrary => CommandModel::ReloadLibrary,
            ViewCommand::ReloadPlaylist => CommandModel::ReloadPlaylist,
            ViewCommand::ReloadProgress => CommandModel::ReloadProgress,
            ViewCommand::ReloadLyric => CommandModel::ReloadLyric,
            ViewCommand::UpdateLyric => CommandModel::UpdateLyric,
        }
    }
}

/// What a list of commands holds.
pub open spec fn commands_model(commands: Seq<ViewCommand>) -> Seq<CommandModel> {
    commands.map_values(|c: ViewCommand| c@)
}

/// The commands that put a popup on the screen: mount it, give it the focus,
/// and, where `lock` is set, keep events from the subscribers behind it.
pub open spec fn popup(id: Id, widget: WidgetModel, lock: bool) -> Seq<CommandModel> {
    let shown = seq![CommandModel::Remount(id, widget), CommandModel::Active(id)];
    if lock {
        shown.push(CommandModel::LockSubs)
    } else {
        shown
    }
}

/// The commands that show an error.
pub open spec fn error_shown(text: Seq<char>) -> Seq<CommandModel> {
    popup(Id::ErrorPopup, WidgetModel::ErrorPopup(text), false)
}

/// The commands that put the two parts of a general search on the screen.
pub open spec fn search_popup(source: Source) -> Seq<CommandModel> {
    seq![
        CommandModel::Remount(Id::GeneralSearchInput, WidgetModel::GSInputPopup(source)),
        CommandModel::Remount(Id::GeneralSearchTable, WidgetModel::GSTablePopup(source)),
        CommandModel::Active(Id::GeneralSearchInput),
        CommandModel::LockSubs,
    ]
}

/// The commands that set a fresh screen up: the panes of the main screen,
/// the line of help with the program's version, and the listener for keys
/// that work everywhere; the focus goes to the library.
pub open spec fn startup(version: Seq<char>) -> Seq<CommandModel> {
    seq![
        CommandModel::Mount(Id::Library, WidgetModel::MusicLibrary),
        CommandModel::Mount(Id::Playlist, WidgetModel::Playlist),
        CommandModel::Mount(Id::Progress, WidgetModel::Progress),
        CommandModel::Mount(Id::Lyric, WidgetModel::Lyric),
        CommandModel::Mount(
            Id::Label,
            WidgetModel::Label {
                text: "Press <CTRL+H> for help. Version: "@ + version,
                tint: Tint::Cyan,
            },
        ),
        CommandModel::Mount(Id::GlobalListener, WidgetModel::GlobalListener),
        CommandModel::Active(Id::Library),
    ]
}

/// The commands that open the tag editor on what is selected in the file
/// tree: a directory has no tag, and for a file the cover picture goes and
/// the song is read.
pub open spec fn tageditor_opening(node_id: Seq<char>, is_dir: bool) -> Seq<CommandModel> {
    if is_dir {
        error_shown("directory doesn't have tag!"@)
    } else {
        seq![CommandModel::ClearPhoto, CommandModel::LoadSong(node_id)]
    }
}

/// The commands that put the parts of the tag editor on the screen.
pub open spec fn tageditor_mounts() -> Seq<CommandModel> {
    seq![
        CommandModel::Remount(
            Id::TELabelHint,
            WidgetModel::Label { text: "Press <ENTER> to search:"@, tint: Tint::Magenta },
        ),
        CommandModel::Remount(Id::TEInputArtist, WidgetModel::TEInputArtist),
        CommandModel::Remount(Id::TEInputTitle, WidgetModel::TEInputTitle),
        CommandModel::Remount(Id::TERadioTag, WidgetModel::TERadioTag),
        CommandModel::Remount(Id::TETableLyricOptions, WidgetModel::TETableLyricOptions),
        CommandModel::Remount(Id::TESelectLyric, WidgetModel::TESelectLyric),
        CommandModel::Remount(Id::TECounterDelete, WidgetModel::TECounterDelete(5)),
        CommandModel::Remount(Id::TETextareaLyric, WidgetModel::TETextareaLyric),
        CommandModel::TryActive(Id::TEInputArtist),
        CommandModel::LockSubs,
    ]
}

/// The commands that take the tag editor off the screen.
pub open spec fn tageditor_closing() -> Seq<CommandModel> {
    seq![
        CommandModel::Umount(Id::TELabelHint),
        CommandModel::Umount(Id::TEInputArtist),
        CommandModel::Umount(Id::TEInputTitle),
        CommandModel::Umount(Id::TERadioTag),
        CommandModel::Umount(Id::TETableLyricOptions),
        CommandModel::Umount(Id::TESelectLyric),
        CommandModel::Umount(Id::TECounterDelete),
        CommandModel::Umount(Id::TETextareaLyric),
        CommandModel::UpdatePhoto,
        CommandModel::UnlockSubs,
    ]
}

/// The commands that put the colour editor on the screen.
pub open spec fn color_editor_opening() -> Seq<CommandModel> {
    seq![
        CommandModel::ClearPhoto,
        CommandModel::Remount(
            Id::ColorEditor(IdColorEditor::LabelHint),
            WidgetModel::Label {
                text: "  Color Editor. You can select theme to change the general layout, or you can change specific color configuration."@,
                tint: Tint::Magenta,
            },
        ),
        CommandModel::Remount(
            Id::ColorEditor(IdColorEditor::ThemeSelect),
            WidgetModel::ThemeSelectTable,
        ),
        CommandModel::Remount(
            Id::ColorEditor(IdColorEditor::LibraryLabel),
            WidgetModel::CELibraryTitle,
        ),
        CommandModel::Remount(
            Id::ColorEditor(IdColorEditor::LibraryForeground),
            WidgetModel::CELibraryForeground,
        ),
        CommandModel::Remount(
            Id::ColorEditor(IdColorEditor::LibraryBackground),
            WidgetModel::CELibraryBackground,
        ),
        CommandModel::Remount(
            Id::ColorEditor(IdColorEditor::LibraryBorder),
            WidgetModel::CELibraryBorder,
        ),
        CommandModel::Remount(
            Id::ColorEditor(IdColorEditor::LibraryHighlight),
            WidgetModel::CELibraryHighlight,
        ),
        CommandModel::Active(Id::ColorEditor(IdColorEditor::ThemeSelect)),
        CommandModel::ThemeSelectSync,
        CommandModel::LockSubs,
    ]
}

/// The commands that take the colour editor off the screen and load the main
/// screen anew.
pub open spec fn color_editor_closing() -> Seq<CommandModel> {
    seq![
        CommandModel::Umount(Id::ColorEditor(IdColorEditor::ThemeSelect)),
        CommandModel::Umount(Id::ColorEditor(IdColorEditor::LibraryLabel)),
        CommandModel::Umount(Id::ColorEditor(IdColorEditor::LibraryForeground)),
        CommandModel::Umount(Id::ColorEditor(IdColorEditor::LibraryBackground)),
        CommandModel::Umount(Id::ColorEditor(IdColorEditor::LibraryBorder)),
        CommandModel::Umount(Id::ColorEditor(IdColorEditor::LibraryHighlight)),
        CommandModel::UpdatePhoto,
        CommandModel::UnlockSubs,
        CommandModel::ReloadLibrary,
        CommandModel::ReloadPlaylist,
        CommandModel::ReloadProgress,
        CommandModel::ReloadLyric,
        CommandModel::UpdateLyric,
    ]
}

/// The words that report a cover picture that could not be drawn.
pub open spec fn photo_error(reason: Seq<char>) -> Seq<char> {
    "update photo error: "@ + reason
}

/// The words that report a cover picture that could not be taken away.
pub open spec fn clear_photo_error(reason: Seq<char>) -> Seq<char> {
    "clear photo error: "@ + reason
}

/// The words that report a song that could not be read.
pub open spec fn song_error(reason: Seq<char>) -> Seq<char> {
    "song load error: "@ + reason
}

/// The command that sets the text of an input, where there is a text.
pub open spec fn input_setting(id: Id, text: Option<Seq<char>>) -> Seq<CommandModel> {
    match text {
        Some(t) => seq![CommandModel::Attr(id, AttrModel::Value(t))],
        None => Seq::empty(),
    }
}

/// The commands that show that a song has no lyrics.
pub open spec fn no_lyric_settings() -> Seq<CommandModel> {
    seq![
        CommandModel::Attr(Id::TESelectLyric, AttrModel::Choices(seq!["Empty"@])),
        CommandModel::Attr(Id::TECounterDelete, AttrModel::Number(0)),
        CommandModel::Attr(Id::TETextareaLyric, AttrModel::Title("Empty Lyric"@)),
        CommandModel::Attr(Id::TETextareaLyric, AttrModel::Lines(seq!["No Lyrics."@])),
    ]
}

/// The commands that show the lyrics of a song: the descriptions in
/// ascending order to choose from, their number, and the lines of the
/// selected lyrics under the description that stands at the selected place.
pub open spec fn lyric_settings(song: SongModel) -> Seq<CommandModel> {
    let langs = sorted_texts(song.descriptions());
    seq![
        CommandModel::Attr(Id::TESelectLyric, AttrModel::Choices(langs)),
        CommandModel::Attr(Id::TECounterDelete, AttrModel::Number(langs.len() as isize)),
        CommandModel::Attr(
            Id::TETextareaLyric,
            AttrModel::Title(langs[song.lyric_selected_index as int] + " Lyrics"@),
        ),
        CommandModel::Attr(Id::TETextareaLyric, AttrModel::Lines(song.selected_lines())),
    ]
}

/// The commands that fill the tag editor from a song.
pub open spec fn song_settings(song: SongModel) -> Seq<CommandModel> {
    input_setting(Id::TEInputArtist, song.artist) + input_setting(Id::TEInputTitle, song.title)
        + if song.lyric_frames_is_empty {
        no_lyric_settings()
    } else {
        lyric_settings(song)
    }
}

/// Whether the tag editor can show a song: a song with lyrics has a
/// description at the selected place.
pub open spec fn can_show(song: SongModel) -> bool {
    !song.lyric_frames_is_empty ==> song.lyric_selected_index < song.descriptions().len()
}

/// What the model holds.
pub struct ModelState {
    /// The commands that wait to be carried out.
    pub commands: Seq<CommandModel>,
    /// Whether the screen is to be drawn anew.
    pub redraw: bool,
    /// The song in the tag editor.
    pub song: Option<SongModel>,
}

impl ModelState {
    /// The model with `more` commands waiting after those that wait already.
    pub open spec fn queued(self, more: Seq<CommandModel>) -> ModelState {
        ModelState { commands: self.commands + more, ..self }
    }
}

/// The screen's state, and the commands that wait to be carried out.
pub struct Model {
    commands: Vec<ViewCommand>,
    redraw: bool,
    tageditor_song: Option<SongTags>,
}

impl Model {
    /// What the model holds.
    pub closed spec fn state(&self) -> ModelState {
        ModelState {
            commands: commands_model(self.commands@),
            redraw: self.redraw,
            song: match self.tageditor_song {
                Some(song) => Some(song@),
                None => None,
            },
        }
    }

    /// A model with nothing to carry out, no song in the tag editor, and a
    /// screen that is still to be drawn.
    pub fn new() -> (model: Self)
        ensures
            model.state() == (ModelState { commands: Seq::empty(), redraw: true, song: None }),
    {
        let model = Model { commands: Vec::new(), redraw: true, tageditor_song: None };
        assert(model.state().commands =~= Seq::<CommandModel>::empty());
        model
    }

    /// The commands that set a fresh screen up for the program of the
    /// version given.
    pub fn init_app(version: &str) -> (commands: Vec<ViewCommand>)
        ensures
            commands_model(commands@) == startup(version@),
    {
        let mut text = String::from_str("Press <CTRL+H> for help. Version: ");
        text.append(version);
        let commands = vec![
            ViewCommand::Mount(Id::Library, Widget::MusicLibrary),
            ViewCommand::Mount(Id::Playlist, Widget::Playlist),
            ViewCommand::Mount(Id::Progress, Widget::Progress),
            ViewCommand::Mount(Id::Lyric, Widget::Lyric),
            ViewCommand::Mount(Id::Label, Widget::Label { text, tint: Tint::Cyan }),
            ViewCommand::Mount(Id::GlobalListener, Widget::GlobalListener),
            ViewCommand::Active(Id::Library),
        ];
        assert(commands_model(commands@) =~= startup(version@));
        commands
    }

    /// Hands out the commands that wait, in the order in which they came, and
    /// leaves none.
    pub fn take_commands(&mut self) -> (commands: Vec<ViewCommand>)
        ensures
            commands_model(commands@) == old(self).state().commands,
            final(self).state() == (ModelState { commands: Seq::empty(), ..old(self).state() }),
    {
        let mut commands: Vec<ViewCommand> = Vec::new();
        std::mem::swap(&mut self.commands, &mut commands);
        assert(self.state().commands =~= Seq::<CommandModel>::empty());
        commands
    }

    /// The song in the tag editor.
    pub fn tageditor_song(&self) -> (song: &Option<SongTags>)
        ensures
            (match *song {
                Some(s) => self.state().song == Some(s@),
                None => self.state().song is None,
            }),
    {
        &self.tageditor_song
    }

    /// Asks for the screen to be drawn anew.
    pub fn force_redraw(&mut self)
        ensures
            final(self).state() == (ModelState { redraw: true, ..old(self).state() }),
    {
        self.redraw = true;
    }

    /// What the next frame shows, if the screen is to be drawn anew, given
    /// what is mounted. After the call the screen counts as drawn.
    pub fn view(&mut self, mounted: &Vec<Id>) -> (frame: Option<Frame>)
        ensures
            final(self).state() == (ModelState { redraw: false, ..old(self).state() }),
            (match frame {
                Some(f) => old(self).state().redraw && f@ == frame_of(mounted@),
                None => !old(self).state().redraw,
            }),
    {
        if self.redraw {
            self.redraw = false;
            Some(plan_frame(mounted))
        } else {
            None
        }
    }

    /// Adds one command.
    fn push(&mut self, command: ViewCommand)
        ensures
            final(self).state() == old(self).state().queued(seq![command@]),
    {
        self.commands.push(command);
        assert(self.state().commands =~= old(self).state().commands + seq![command@]);
    }

    /// Adds a remount.
    fn remount(&mut self, id: Id, widget: Widget)
        ensures
            final(self).state() == old(self).state().queued(seq![CommandModel::Remount(id, widget@)]),
    {
        self.push(ViewCommand::Remount(id, widget));
    }

    /// Adds the commands that put a popup on the screen.
    fn mount_popup(&mut self, id: Id, widget: Widget, lock: bool)
        ensures
            final(self).state() == old(self).state().queued(popup(id, widget@, lock)),
    {
        self.push(ViewCommand::Remount(id, widget));
        self.push(ViewCommand::Active(id));
        if lock {
            self.push(ViewCommand::LockSubs);
        }
        assert(self.state().commands =~= old(self).state().commands + popup(id, widget@, lock));
    }

    /// Adds the commands that put the two parts of a general search on the
    /// screen.
    fn mount_search(&mut self, source: Source)
        ensures
            final(self).state() == old(self).state().queued(search_popup(source)),
    {
        self.push(ViewCommand::Remount(Id::GeneralSearchInput, Widget::GSInputPopup(source)));
        self.push(ViewCommand::Remount(Id::GeneralSearchTable, Widget::GSTablePopup(source)));
        self.push(ViewCommand::Active(Id::GeneralSearchInput));
        self.push(ViewCommand::LockSubs);
        assert(self.state().commands =~= old(self).state().commands + search_popup(source));
    }

    /// Shows an error and gives it the focus.
    pub fn mount_error_popup(&mut self, err: &str)
        ensures
            final(self).state() == old(self).state().queued(error_shown(err@)),
    {
        self.mount_popup(Id::ErrorPopup, Widget::ErrorPopup(err.to_owned()), false);
    }

    /// Shows an error that begins with `what` and goes on with `reason`.
    fn mount_failure(&mut self, what: &str, reason: &str)
        ensures
            final(self).state() == old(self).state().queued(error_shown(what@ + reason@)),
    {
        let mut text = String::from_str(what);
        text.append(reason);
        self.mount_error_popup(text.as_str());
    }

    /// Asks whether to quit.
    pub fn mount_quit_popup(&mut self)
        ensures
            final(self).state() == old(self).state().queued(popup(Id::QuitPopup, WidgetModel::QuitPopup, true)),
    {
        self.mount_popup(Id::QuitPopup, Widget::QuitPopup, true);
    }

    /// Shows the help.
    pub fn mount_help_popup(&mut self)
        ensures
            final(self).state() == old(self).state().queued(popup(Id::HelpPopup, WidgetModel::HelpPopup, true)),
    {
        self.mount_popup(Id::HelpPopup, Widget::HelpPopup, true);
    }

    /// Asks for a yes or no before a file is deleted.
    pub fn mount_confirm_radio(&mut self)
        ensures
            final(self).state() == old(self).state().queued(
                popup(Id::DeleteConfirmRadioPopup, WidgetModel::DeleteConfirmRadioPopup, true),
            ),
    {
        self.mount_popup(Id::DeleteConfirmRadioPopup, Widget::DeleteConfirmRadioPopup, true);
    }

    /// Asks for a typed confirmation before a directory is deleted.
    pub fn mount_confirm_input(&mut self)
        ensures
            final(self).state() == old(self).state().queued(
                popup(Id::DeleteConfirmInputPopup, WidgetModel::DeleteConfirmInputPopup, true),
            ),
    {
        self.mount_popup(Id::DeleteConfirmInputPopup, Widget::DeleteConfirmInputPopup, true);
    }

    /// Opens the search through the library.
    pub fn mount_search_library(&mut self)
        ensures
            final(self).state() == old(self).state().queued(search_popup(Source::Library)),
    {
        self.mount_search(Source::Library);
    }

    /// Opens the search through the playlist.
    pub fn mount_search_playlist(&mut self)
        ensures
            final(self).state() == old(self).state().queued(search_popup(Source::Playlist)),
    {
        self.mount_search(Source::Playlist);
    }

    /// Asks for the keyword of a catalog search.
    pub fn mount_youtube_search_input(&mut self)
        ensures
            final(self).state() == old(self).state().queued(
                popup(Id::YoutubeSearchInputPopup, WidgetModel::YSInputPopup, true),
            ),
    {
        self.mount_popup(Id::YoutubeSearchInputPopup, Widget::YSInputPopup, true);
    }

    /// Opens the table of catalog results.
    pub fn mount_youtube_search_table(&mut self)
        ensures
            final(self).state() == old(self).state().queued(
                popup(Id::YoutubeSearchTablePopup, WidgetModel::YSTablePopup, true),
            ),
    {
        self.mount_popup(Id::YoutubeSearchTablePopup, Widget::YSTablePopup, true);
    }

    /// Shows a message; the focus stays where it is.
    pub fn mount_message(&mut self, title: &str, text: &str)
        ensures
            final(self).state() == old(self).state().queued(
                seq![
                    CommandModel::Remount(
                        Id::MessagePopup,
                        WidgetModel::MessagePopup { title: title@, text: text@ },
                    ),
                ],
            ),
    {
        self.remount(
            Id::MessagePopup,
            Widget::MessagePopup { title: title.to_owned(), text: text.to_owned() },
        );
    }

    /// Takes the message away if it is still the one with this text: `shown`
    /// is the text that the message popup shows, if it shows one.
    pub fn umount_message(&mut self, _title: &str, text: &str, shown: Option<&str>)
        ensures
            final(self).state() == old(self).state().queued(
                if shown is Some && shown->0@ == text@ {
                    seq![CommandModel::Umount(Id::MessagePopup)]
                } else {
                    Seq::empty()
                },
            ),
    {
        let same = match shown {
            Some(display_text) => display_text.to_owned() == text.to_owned(),
            None => false,
        };
        if same {
            self.push(ViewCommand::Umount(Id::MessagePopup));
        }
        assert(self.state().commands =~= old(self).state().queued(
            if shown is Some && shown->0@ == text@ {
                seq![CommandModel::Umount(Id::MessagePopup)]
            } else {
                Seq::empty()
            },
        ).commands);
    }

    /// Opens the tag editor on what is selected in the file tree: `node_id`
    /// is the selected path, and `is_dir` says whether it is a directory. A
    /// directory has no tag, which is shown as an error. For a file the cover
    /// picture goes and the song is read; the editor comes up once the song
    /// is there.
    pub fn mount_tageditor(&mut self, node_id: &str, is_dir: bool)
        ensures
            final(self).state() == old(self).state().queued(tageditor_opening(node_id@, is_dir)),
    {
        if is_dir {
            self.mount_error_popup("directory doesn't have tag!");
        } else {
            self.push(ViewCommand::ClearPhoto);
            self.push(ViewCommand::LoadSong(node_id.to_owned()));
            assert(self.state().commands =~= old(self).state().commands + tageditor_opening(node_id@, is_dir));
        }
    }

    /// Takes in that the cover picture could not be taken away: the failure
    /// is shown as an error.
    pub fn photo_clear_failed(&mut self, reason: &str)
        ensures
            final(self).state() == old(self).state().queued(error_shown(clear_photo_error(reason@))),
    {
        self.mount_failure("clear photo error: ", reason);
    }

    /// Takes in that the song could not be read: the failure is shown as an
    /// error, and the tag editor stays away.
    pub fn song_load_failed(&mut self, reason: &str)
        ensures
            final(self).state() == old(self).state().queued(error_shown(song_error(reason@))),
    {
        self.mount_failure("song load error: ", reason);
    }

    /// Takes in the song that was read: the parts of the tag editor come up,
    /// events stay away from the subscribers, and the editor is filled from
    /// the song.
    pub fn song_loaded(&mut self, song: SongTags)
        requires
            can_show(song@),
        ensures
            final(self).state() == (ModelState {
                commands: old(self).state().commands + tageditor_mounts() + song_settings(song@),
                redraw: old(self).state().redraw,
                song: Some(song@),
            }),
    {
        self.remount(
            Id::TELabelHint,
            Widget::Label { text: "Press <ENTER> to search:".to_owned(), tint: Tint::Magenta },
        );
        self.remount(Id::TEInputArtist, Widget::TEInputArtist);
        self.remount(Id::TEInputTitle, Widget::TEInputTitle);
        self.remount(Id::TERadioTag, Widget::TERadioTag);
        self.remount(Id::TETableLyricOptions, Widget::TETableLyricOptions);
        self.remount(Id::TESelectLyric, Widget::TESelectLyric);
        self.remount(Id::TECounterDelete, Widget::TECounterDelete(5));
        self.remount(Id::TETextareaLyric, Widget::TETextareaLyric);
        self.push(ViewCommand::TryActive(Id::TEInputArtist));
        self.push(ViewCommand::LockSubs);
        assert(self.state().commands =~= old(self).state().commands + tageditor_mounts());
        self.init_by_song(song);
        assert(self.state().commands =~= old(self).state().commands + tageditor_mounts() + song_settings(song@));
    }

    /// Takes the tag editor off the screen, has the cover picture drawn anew
    /// and lets the subscribers have events again.
    pub fn umount_tageditor(&mut self)
        ensures
            final(self).state() == old(self).state().queued(tageditor_closing()),
    {
        self.push(ViewCommand::Umount(Id::TELabelHint));
        self.push(ViewCommand::Umount(Id::TEInputArtist));
        self.push(ViewCommand::Umount(Id::TEInputTitle));
        self.push(ViewCommand::Umount(Id::TERadioTag));
        self.push(ViewCommand::Umount(Id::TETableLyricOptions));
        self.push(ViewCommand::Umount(Id::TESelectLyric));
        self.push(ViewCommand::Umount(Id::TECounterDelete));
        self.push(ViewCommand::Umount(Id::TETextareaLyric));
        self.push(ViewCommand::UpdatePhoto);
        self.push(ViewCommand::UnlockSubs);
        assert(self.state().commands =~= old(self).state().commands + tageditor_closing());
    }

    /// Adds a setting.
    fn attr(&mut self, id: Id, setting: AttrSetting)
        ensures
            final(self).state() == old(self).state().queued(seq![CommandModel::Attr(id, setting@)]),
    {
        self.push(ViewCommand::Attr(id, setting));
    }

    /// Sets the text of an input, where there is a text.
    fn set_input(&mut self, id: Id, text: &Option<String>)
        ensures
            final(self).state() == old(self).state().queued(input_setting(id, text_of(*text))),
    {
        match text {
            Some(t) => {
                self.attr(id, AttrSetting::Value(t.clone()));
            },
            None => {
                assert(self.state().commands =~= old(self).state().commands + Seq::<CommandModel>::empty());
            },
        }
    }

    /// Fills the tag editor from a song, and keeps the song: artist and
    /// title where the song has them, and the lyrics, or the word that there
    /// are none.
    pub fn init_by_song(&mut self, s: SongTags)
        requires
            can_show(s@),
        ensures
            final(self).state() == (ModelState {
                commands: old(self).state().commands + song_settings(s@),
                redraw: old(self).state().redraw,
                song: Some(s@),
            }),
    {
        self.set_input(Id::TEInputArtist, &s.artist);
        self.set_input(Id::TEInputTitle, &s.title);
        if s.lyric_frames_is_empty {
            self.init_by_song_no_lyric();
        } else {
            let vec_lang = sorted_descriptions(&s);
            let count = vec_lang.len() as isize;
            let mut title = vec_lang[s.lyric_selected_index].clone();
            title.append(" Lyrics");
            let vec_lyric = match &s.lyric_selected {
                Some(f) => lines(f.text.as_str()),
                None => Vec::new(),
            };
            assert(texts_model(vec_lyric@) =~= s@.selected_lines());
            self.attr(Id::TESelectLyric, AttrSetting::Choices(vec_lang));
            self.attr(Id::TECounterDelete, AttrSetting::Number(count));
            self.attr(Id::TETextareaLyric, AttrSetting::Title(title));
            self.attr(Id::TETextareaLyric, AttrSetting::Lines(vec_lyric));
        }
        assert(self.state().commands =~= old(self).state().commands + song_settings(s@));
        self.tageditor_song = Some(s);
    }

    /// Shows in the tag editor that the song has no lyrics.
    fn init_by_song_no_lyric(&mut self)
        ensures
            final(self).state() == old(self).state().queued(no_lyric_settings()),
    {
        let choices = vec!["Empty".to_owned()];
        let text = vec!["No Lyrics.".to_owned()];
        assert(texts_model(choices@) =~= seq!["Empty"@]);
        assert(texts_model(text@) =~= seq!["No Lyrics."@]);
        self.attr(Id::TESelectLyric, AttrSetting::Choices(choices));
        self.attr(Id::TECounterDelete, AttrSetting::Number(0));
        self.attr(Id::TETextareaLyric, AttrSetting::Title("Empty Lyric".to_owned()));
        self.attr(Id::TETextareaLyric, AttrSetting::Lines(text));
        assert(self.state().commands =~= old(self).state().commands + no_lyric_settings());
    }

    /// Shows the help of the tag editor and gives it the focus.
    pub fn mount_tageditor_help(&mut self)
        ensures
            final(self).state() == old(self).state().queued(
                popup(Id::TEHelpPopup, WidgetModel::TEHelpPopup, false),
            ),
    {
        self.mount_popup(Id::TEHelpPopup, Widget::TEHelpPopup, false);
    }

    /// Puts the colour editor on the screen: the cover picture goes, the
    /// parts of the editor come up, the table of themes gets the focus and
    /// marks the theme in use, and events stay away from the subscribers.
    pub fn mount_color_editor(&mut self)
        ensures
            final(self).state() == old(self).state().queued(color_editor_opening()),
    {
        self.push(ViewCommand::ClearPhoto);
        self.remount(
            Id::ColorEditor(IdColorEditor::LabelHint),
            Widget::Label {
                text: "  Color Editor. You can select theme to change the general layout, or you can change specific color configuration.".to_owned(),
                tint: Tint::Magenta,
            },
        );
        self.remount(Id::ColorEditor(IdColorEditor::ThemeSelect), Widget::ThemeSelectTable);
        self.remount(Id::ColorEditor(IdColorEditor::LibraryLabel), Widget::CELibraryTitle);
        self.remount(
            Id::ColorEditor(IdColorEditor::LibraryForeground),
            Widget::CELibraryForeground,
        );
        self.remount(
            Id::ColorEditor(IdColorEditor::LibraryBackground),
            Widget::CELibraryBackground,
        );
        self.remount(Id::ColorEditor(IdColorEditor::LibraryBorder), Widget::CELibraryBorder);
        self.remount(
            Id::ColorEditor(IdColorEditor::LibraryHighlight),
            Widget::CELibraryHighlight,
        );
        self.push(ViewCommand::Active(Id::ColorEditor(IdColorEditor::ThemeSelect)));
        self.push(ViewCommand::ThemeSelectSync);
        self.push(ViewCommand::LockSubs);
        assert(self.state().commands =~= old(self).state().commands + color_editor_opening());
    }

    /// Takes the colour editor off the screen, has the cover picture drawn
    /// anew, lets the subscribers have events again and loads the main screen
    /// anew.
    pub fn umount_color_editor(&mut self)
        ensures
            final(self).state() == old(self).state().queued(color_editor_closing()),
    {
        self.push(ViewCommand::Umount(Id::ColorEditor(IdColorEditor::ThemeSelect)));
        self.push(ViewCommand::Umount(Id::ColorEditor(IdColorEditor::LibraryLabel)));
        self.push(ViewCommand::Umount(Id::ColorEditor(IdColorEditor::LibraryForeground)));
        self.push(ViewCommand::Umount(Id::ColorEditor(IdColorEditor::LibraryBackground)));
        self.push(ViewCommand::Umount(Id::ColorEditor(IdColorEditor::LibraryBorder)));
        self.push(ViewCommand::Umount(Id::ColorEditor(IdColorEditor::LibraryHighlight)));
        self.push(ViewCommand::UpdatePhoto);
        self.push(ViewCommand::UnlockSubs);
        self.push(ViewCommand::ReloadLibrary);
        self.push(ViewCommand::ReloadPlaylist);
        self.push(ViewCommand::ReloadProgress);
        self.push(ViewCommand::ReloadLyric);
        self.push(ViewCommand::UpdateLyric);
        assert(self.state().commands =~= old(self).state().commands + color_editor_closing());
    }

    /// Takes in that the cover picture could not be drawn: the failure is
    /// shown as an error.
    pub fn photo_update_failed(&mut self, reason: &str)
        ensures
            final(self).state() == old(self).state().queued(error_shown(photo_error(reason@))),
    {
        self.mount_failure("update photo error: ", reason);
    }
}

} // verus!
