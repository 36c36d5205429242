//! The search session: the keyword, the page, the entries of the last answer
//! and the backend that gave them.
//!
//! The session asks nothing itself. Each step that needs the catalog hands
//! back the request to send, and `receive` takes in what the backend answered.

use vstd::prelude::*;

verus! {

/// One entry of the catalog.
#[derive(Debug, Clone, PartialEq, Eq)]
pub struct YoutubeVideo {
    pub title: String,
    pub length_seconds: u64,
    pub video_id: String,
}

/// What a catalog entry holds.
pub struct VideoModel {
    pub title: Seq<char>,
    pub length_seconds: u64,
    pub video_id: Seq<char>,
}

impl View for YoutubeVideo {
    type V = VideoModel;

    open spec fn view(&self) -> VideoModel {
        VideoModel {
            title: self.title@,
            length_seconds: self.length_seconds,
            video_id: self.video_id@,
        }
    }
}

/// What a list of catalog entries holds.
pub open spec fn videos(items: Seq<YoutubeVideo>) -> Seq<VideoModel> {
    items.map_values(|v: YoutubeVideo| v@)
}

/// The backend that answers the queries, by the name it shows to the user.
#[derive(Debug, Clone, PartialEq, Eq)]
pub struct InvidiousInstance {
    pub domain: Option<String>,
}

/// The name a backend shows, if it has one.
pub open spec fn domain_of(instance: InvidiousInstance) -> Option<Seq<char>> {
    match instance.domain {
        Some(d) => Some(d@),
        None => None,
    }
}

impl Default for InvidiousInstance {
    fn default() -> (r: Self)
        ensures
            r.domain is None,
    {
        InvidiousInstance { domain: None }
    }
}

/// Why a catalog operation gave nothing.
#[derive(Debug, Clone, PartialEq, Eq)]
pub enum CatalogError {
    /// The result set has no entry at the index asked for.
    IndexNotFound,
    /// The backend failed; the text is its own.
    Backend(String),
}

impl CatalogError {
    /// The error in words.
    pub fn message(&self) -> (text: String)
        ensures
            text@ == (match *self {
                CatalogError::IndexNotFound => "index not found"@,
                CatalogError::Backend(reason) => reason@,
            }),
    {
        match self {
            CatalogError::IndexNotFound => "index not found".to_owned(),
            CatalogError::Backend(reason) => reason.clone(),
        }
    }
}

/// A query for the backend.
#[derive(Debug, Clone, PartialEq, Eq)]
pub enum CatalogRequest {
    /// Pick a backend for the keyword and ask it for the first page.
    Search { keyword: String },
    /// Ask the backend in use for a page of the keyword's results.
    Page { keyword: String, page: u32 },
}

/// What a query asks for.
pub enum RequestModel {
    Search { keyword: Seq<char> },
    Page { keyword: Seq<char>, page: nat },
}

impl View for CatalogRequest {
    type V = RequestModel;

    open spec fn view(&self) -> RequestModel {
        match *self {
            CatalogRequest::Search { keyword } => RequestModel::Search { keyword: keyword@ },
            CatalogRequest::Page { keyword, page } => RequestModel::Page {
                keyword: keyword@,
                page: page as nat,
            },
        }
    }
}

/// The backend's answer to a query.
#[derive(Debug, Clone, PartialEq, Eq)]
pub enum CatalogResponse {
    /// The answer to a search: the backend picked, and the first page.
    Found { instance: InvidiousInstance, items: Vec<YoutubeVideo> },
    /// The answer to a page query.
    Page { items: Vec<YoutubeVideo> },
    /// The query failed.
    Failed { reason: String },
}

/// What an answer holds.
pub enum ResponseModel {
    Found { domain: Option<Seq<char>>, items: Seq<VideoModel> },
    Page { items: Seq<VideoModel> },
    Failed { reason: Seq<char> },
}

impl View for CatalogResponse {
    type V = ResponseModel;

    open spec fn view(&self) -> ResponseModel {
        match *self {
            CatalogResponse::Found { instance, items } => ResponseModel::Found {
                domain: domain_of(instance),
                items: videos(items@),
            },
            CatalogResponse::Page { items } => ResponseModel::Page { items: videos(items@) },
            CatalogResponse::Failed { reason } => ResponseModel::Failed { reason: reason@ },
        }
    }
}

/// The state of a search session.
pub struct SessionModel {
    /// The keyword last searched for; empty before the first search.
    pub keyword: Seq<char>,
    /// The page, counted from 1.
    pub page: nat,
    /// The entries of the last answer, in the catalog's order.
    pub items: Seq<VideoModel>,
    /// The name of the backend in use.
    pub domain: Option<Seq<char>>,
}

impl SessionModel {
    /// A session before its first search.
    pub open spec fn initial() -> SessionModel {
        SessionModel { keyword: Seq::empty(), page: 1, items: Seq::empty(), domain: None }
    }

    /// The session once a search for `keyword` is under way.
    pub open spec fn searching(self, keyword: Seq<char>) -> SessionModel {
        SessionModel { keyword, ..self }
    }

    /// The session once the page before is asked for; the first page has none.
    pub open spec fn turned_back(self) -> SessionModel {
        if self.page > 1 {
            SessionModel { page: (self.page - 1) as nat, ..self }
        } else {
            self
        }
    }

    /// The session once the next page is asked for.
    pub open spec fn turned_forward(self) -> SessionModel {
        SessionModel { page: self.page + 1, ..self }
    }

    /// The session once the backend has answered.
    pub open spec fn received(self, response: ResponseModel) -> SessionModel {
        match response {
            ResponseModel::Found { domain, items } => SessionModel {
                keyword: self.keyword,
                page: 1,
                items,
                domain,
            },
            ResponseModel::Page { items } => SessionModel { items, ..self },
            ResponseModel::Failed { reason } => self,
        }
    }

    /// The query for the page the session stands on.
    pub open spec fn page_request(self) -> RequestModel {
        RequestModel::Page { keyword: self.keyword, page: self.page }
    }
}

/// A page turn stands whatever the backend answers to its query: the page has
/// gone up by one also where the query fails, and a failure leaves the entries
/// of the page before.
pub proof fn lemma_next_page_stands(session: SessionModel, response: ResponseModel)
    requires
        !(response is Found),
    ensures
        session.turned_forward().received(response).page == session.page + 1,
        response is Failed ==> session.turned_forward().received(response).items == session.items,
{
}

/// On page 1 a step back changes nothing; on a later page it stands whatever
/// the backend answers to its query.
pub proof fn lemma_prev_page_stands(session: SessionModel, response: ResponseModel)
    requires
        session.page >= 1,
        !(response is Found),
    ensures
        session.page == 1 ==> session.turned_back() == session,
        session.page > 1 ==> session.turned_back().received(response).page == session.page - 1,
        response is Failed ==> session.turned_back().received(response).items == session.items,
{
}

/// A search that fails leaves the session as it was, but for the keyword,
/// which names what was searched for.
pub proof fn lemma_failed_search_keeps_results(
    session: SessionModel,
    keyword: Seq<char>,
    reason: Seq<char>,
)
    ensures
        session.searching(keyword).received(ResponseModel::Failed { reason }) == (SessionModel {
            keyword,
            ..session
        }),
{
}

/// A search that succeeds begins at page 1 with the entries and the backend
/// of the answer.
pub proof fn lemma_search_starts_at_page_one(
    session: SessionModel,
    keyword: Seq<char>,
    domain: Option<Seq<char>>,
    items: Seq<VideoModel>,
)
    ensures
        session.searching(keyword).received(ResponseModel::Found { domain, items }) == (
        SessionModel { keyword, page: 1, items, domain }),
{
}

/// The page never goes below 1: not on a step back, not on a step forward,
/// and not on any answer of the backend.
pub proof fn lemma_page_stays_positive(session: SessionModel, response: ResponseModel)
    requires
        session.page >= 1,
    ensures
        session.turned_back().page >= 1,
        session.turned_forward().page >= 1,
        session.received(response).page >= 1,
{
}

/// A search session.
pub struct YoutubeOptions {
    items: Vec<YoutubeVideo>,
    page: u32,
    search_word: String,
    invidious_instance: InvidiousInstance,
}

impl View for YoutubeOptions {
    type V = SessionModel;

    closed spec fn view(&self) -> SessionModel {
        SessionModel {
            keyword: self.search_word@,
            page: self.page as nat,
            items: videos(self.items@),
            domain: domain_of(self.invidious_instance),
        }
    }
}

impl YoutubeOptions {
    #[verifier::type_invariant]
    spec fn pages_start_at_one(self) -> bool {
        self.page >= 1
    }

    /// A session before its first search: no keyword, page 1, no entries.
    pub fn new() -> (session: Self)
        ensures
            session@ == SessionModel::initial(),
    {
        let session = Self {
            items: Vec::new(),
            page: 1,
            search_word: String::new(),
            invidious_instance: InvidiousInstance::default(),
        };
        assert(session@.items =~= Seq::empty());
        session
    }

    /// The entry at `index` of the current result set.
    pub fn get_by_index(&self, index: usize) -> (r: Result<&YoutubeVideo, CatalogError>)
        ensures
            (match r {
                Ok(item) => index < self@.items.len() && item@ == self@.items[index as int],
                Err(e) => index >= self@.items.len() && e is IndexNotFound,
            }),
    {
        if index < self.items.len() {
            Ok(&self.items[index])
        } else {
            Err(CatalogError::IndexNotFound)
        }
    }

    /// Begins a search. The keyword is recorded at once, whatever the backend
    /// will answer; the rest of the session waits for `receive`.
    pub fn search(&mut self, keyword: &str) -> (request: CatalogRequest)
        ensures
            final(self)@ == old(self)@.searching(keyword@),
            request@ == (RequestModel::Search { keyword: keyword@ }),
    {
        proof {
            use_type_invariant(&*self);
        }
        self.search_word = keyword.to_owned();
        CatalogRequest::Search { keyword: keyword.to_owned() }
    }

    /// Steps to the page before. On page 1 there is nothing to do, and nothing
    /// to ask. Otherwise the page goes down at once, and the query for it
    /// comes back.
    pub fn prev_page(&mut self) -> (request: Option<CatalogRequest>)
        ensures
            final(self)@ == old(self)@.turned_back(),
            (match request {
                Some(q) => old(self)@.page > 1 && q@ == final(self)@.page_request(),
                None => old(self)@.page == 1,
            }),
    {
        proof {
            use_type_invariant(&*self);
        }
        if self.page > 1 {
            self.page -= 1;
            Some(CatalogRequest::Page { keyword: self.search_word.clone(), page: self.page })
        } else {
            None
        }
    }

    /// Steps to the next page. The page goes up at once, and the query for it
    /// comes back.
    pub fn next_page(&mut self) -> (request: CatalogRequest)
        requires
            old(self)@.page < u32::MAX,
        ensures
            final(self)@ == old(self)@.turned_forward(),
            request@ == final(self)@.page_request(),
    {
        proof {
            use_type_invariant(&*self);
        }
        self.page += 1;
        CatalogRequest::Page { keyword: self.search_word.clone(), page: self.page }
    }

    /// Takes in the backend's answer. The answer to a search replaces the
    /// backend and the entries and goes to page 1; a page replaces the
    /// entries; a failure changes nothing and is handed on.
    pub fn receive(&mut self, response: CatalogResponse) -> (r: Result<(), CatalogError>)
        ensures
            final(self)@ == old(self)@.received(response@),
            (match r {
                Ok(()) => !(response is Failed),
                Err(e) => response matches CatalogResponse::Failed { reason }
                    && e matches CatalogError::Backend(text) && text@ == reason@,
            }),
    {
        proof {
            use_type_invariant(&*self);
        }
        match response {
            CatalogResponse::Found { instance, items } => {
                self.invidious_instance = instance;
                self.items = items;
                self.page = 1;
                Ok(())
            },
            CatalogResponse::Page { items } => {
                self.items = items;
                Ok(())
            },
            CatalogResponse::Failed { reason } => Err(CatalogError::Backend(reason)),
        }
    }

    /// The entries of the last answer, in the catalog's order.
    pub fn items(&self) -> (items: &Vec<YoutubeVideo>)
        ensures
            videos(items@) == self@.items,
    {
        &self.items
    }

    /// The keyword last searched for.
    pub fn search_word(&self) -> (keyword: &str)
        ensures
            keyword@ == self@.keyword,
    {
        self.search_word.as_str()
    }

    /// The backend in use.
    pub fn instance(&self) -> (instance: &InvidiousInstance)
        ensures
            domain_of(*instance) == self@.domain,
    {
        &self.invidious_instance
    }

    /// The page the session stands on.
    pub fn page(&self) -> (page: u32)
        ensures
            page == self@.page,
            page >= 1,
    {
        proof {
            use_type_invariant(self);
        }
        self.page
    }
}

} // verus!
