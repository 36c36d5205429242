//! What the main screen does with the search session and with downloads.
//!
//! Nothing here draws or sends: each call hands back what is to be asked of
//! the catalog, shown on the screen or downloaded.

use crate::catalog::{
    CatalogRequest, CatalogResponse, RequestModel, ResponseModel, SessionModel, YoutubeOptions,
};
use crate::download::{target_dir, target_of, DownloadJob, PhaseModel, SETTLE_SECONDS};
use crate::table::{table_of, table_rows, TableModel, TableUpdate};
use crate::text::{decimal, text_of_str};
use vstd::prelude::*;
use vstd::string::StringExecFns;

verus! {

/// What the screen is to show after a step of the session.
#[derive(Debug, Clone, PartialEq, Eq)]
pub enum ScreenUpdate {
    /// The table of results.
    Table(TableUpdate),
    /// An error, in words.
    Error(String),
}

/// What a screen update holds.
pub enum ScreenModel {
    Table(TableModel),
    Error(Seq<char>),
}

impl View for ScreenUpdate {
    type V = ScreenModel;

    open spec fn view(&self) -> ScreenModel {
        match *self {
            ScreenUpdate::Table(table) => ScreenModel::Table(table@),
            ScreenUpdate::Error(text) => ScreenModel::Error(text@),
        }
    }
}

/// What a step to the page before leads to.
#[derive(Debug, Clone, PartialEq, Eq)]
pub enum PageTurn {
    /// The query to send to the catalog.
    Ask(CatalogRequest),
    /// Nothing to ask: the table as it stands.
    Show(TableUpdate),
}

/// The address of the entry with the identifier `video_id`.
pub open spec fn watch_url(video_id: Seq<char>) -> Seq<char> {
    "https://www.youtube.com/watch?v="@ + video_id
}

/// The words that report a failed query.
pub open spec fn search_error(reason: Seq<char>) -> Seq<char> {
    "search error: "@ + reason
}

/// What the screen shows once the backend has answered: the words of the
/// failure, or the table of the session as the answer left it.
pub open spec fn screen_after(session: SessionModel, response: ResponseModel) -> ScreenModel {
    match response {
        ResponseModel::Failed { reason } => ScreenModel::Error(search_error(reason)),
        _ => ScreenModel::Table(table_of(session.received(response))),
    }
}

/// The main screen's state.
pub struct MainActivity {
    youtube_options: YoutubeOptions,
}

impl View for MainActivity {
    type V = SessionModel;

    closed spec fn view(&self) -> SessionModel {
        self.youtube_options@
    }
}

impl MainActivity {
    /// A screen with a session before its first search.
    pub fn new() -> (activity: Self)
        ensures
            activity@ == SessionModel::initial(),
    {
        MainActivity { youtube_options: YoutubeOptions::new() }
    }

    /// The search session.
    pub fn youtube_options(&self) -> (session: &YoutubeOptions)
        ensures
            session@ == self@,
    {
        &self.youtube_options
    }

    /// Begins a search for `keyword`, and hands back the query to send.
    pub fn youtube_options_search(&mut self, keyword: &str) -> (request: CatalogRequest)
        ensures
            final(self)@ == old(self)@.searching(keyword@),
            request@ == (RequestModel::Search { keyword: keyword@ }),
    {
        self.youtube_options.search(keyword)
    }

    /// Steps to the page before. On page 1 nothing changes and the table is
    /// shown as it stands; on a later page the query for the page before
    /// comes back.
    pub fn youtube_options_prev_page(&mut self) -> (turn: PageTurn)
        ensures
            final(self)@ == old(self)@.turned_back(),
            (match turn {
                PageTurn::Ask(q) => old(self)@.page > 1 && q@ == final(self)@.page_request(),
                PageTurn::Show(table) => old(self)@.page == 1 && table@ == table_of(old(self)@),
            }),
    {
        match self.youtube_options.prev_page() {
            Some(request) => PageTurn::Ask(request),
            None => PageTurn::Show(self.sync_youtube_options()),
        }
    }

    /// Steps to the next page, and hands back the query for it.
    pub fn youtube_options_next_page(&mut self) -> (request: CatalogRequest)
        requires
            old(self)@.page < u32::MAX,
        ensures
            final(self)@ == old(self)@.turned_forward(),
            request@ == final(self)@.page_request(),
    {
        self.youtube_options.next_page()
    }

    /// Takes in the backend's answer to the last query. A failure is shown
    /// in words and leaves the session as it was; any other answer goes into
    /// the session, and the table is shown anew.
    pub fn youtube_options_receive(&mut self, response: CatalogResponse) -> (screen: ScreenUpdate)
        ensures
            final(self)@ == old(self)@.received(response@),
            screen@ == screen_after(old(self)@, response@),
    {
        match self.youtube_options.receive(response) {
            Ok(()) => ScreenUpdate::Table(self.sync_youtube_options()),
            Err(e) => {
                let mut text = String::from_str("search error: ");
                text.append(e.message().as_str());
                ScreenUpdate::Error(text)
            },
        }
    }

    /// The download of the address `link` into the directory that the
    /// selection in the file tree gives: `selection` is the selected path, and
    /// `is_dir` says whether it is a directory.
    pub fn youtube_dl(&self, link: &str, selection: Option<&str>, is_dir: bool) -> (job:
        DownloadJob)
        ensures
            job@.url == link@,
            job@.phase == PhaseModel::Idle,
            job@.settle == SETTLE_SECONDS,
            job@.dir == target_of(text_of_str(selection), is_dir),
    {
        DownloadJob::new(target_dir(selection, is_dir), link.to_owned())
    }

    /// The download of the entry at `index` of the result set, if there is
    /// such an entry.
    pub fn youtube_options_download(
        &self,
        index: usize,
        selection: Option<&str>,
        is_dir: bool,
    ) -> (download: Option<DownloadJob>)
        ensures
            (match download {
                Some(job) => {
                    &&& index < self@.items.len()
                    &&& job@.url == watch_url(self@.items[index as int].video_id)
                    &&& job@.phase == PhaseModel::Idle
                    &&& job@.settle == SETTLE_SECONDS
                    &&& job@.dir == target_of(text_of_str(selection), is_dir)
                },
                None => index >= self@.items.len(),
            }),
    {
        match self.youtube_options.get_by_index(index) {
            Ok(item) => {
                let mut url = String::from_str("https://www.youtube.com/watch?v=");
                url.append(item.video_id.as_str());
                Some(self.youtube_dl(url.as_str(), selection, is_dir))
            },
            Err(_) => None,
        }
    }

    /// The table for the session as it stands.
    pub fn sync_youtube_options(&self) -> (table: TableUpdate)
        ensures
            table@ == table_of(self@),
    {
        let session = &self.youtube_options;
        match &session.instance().domain {
            None => TableUpdate::Unchanged,
            Some(domain) => {
                if session.items().len() == 0 {
                    let mut notice = String::from_str("Empty result.Probably ");
                    notice.append(domain.as_str());
                    notice.append(" is down.");
                    TableUpdate::Notice(notice)
                } else {
                    let mut title = String::from_str("── Page ");
                    title.append(decimal(session.page()).as_str());
                    title.append(" ──┼─ ");
                    title.append("Tab/Shift+Tab switch pages");
                    title.append(" ─┼─ ");
                    title.append(domain.as_str());
                    title.append(" ─────");
                    TableUpdate::Page { title, rows: table_rows(session.items()) }
                }
            },
        }
    }
}

} // verus!
