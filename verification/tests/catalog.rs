use termusic::catalog::{
    CatalogError, CatalogRequest, CatalogResponse, InvidiousInstance, YoutubeOptions, YoutubeVideo,
};

fn video(id: &str, title: &str, seconds: u64) -> YoutubeVideo {
    YoutubeVideo { title: title.to_string(), length_seconds: seconds, video_id: id.to_string() }
}

fn backend(domain: &str) -> InvidiousInstance {
    InvidiousInstance { domain: Some(domain.to_string()) }
}

fn found(domain: &str, items: Vec<YoutubeVideo>) -> CatalogResponse {
    CatalogResponse::Found { instance: backend(domain), items }
}

#[test]
fn a_new_session_is_on_page_one_and_empty() {
    let session = YoutubeOptions::new();
    assert_eq!(session.page(), 1);
    assert!(session.items().is_empty());
    assert_eq!(session.search_word(), "");
    assert_eq!(session.instance().domain, None);
    assert_eq!(InvidiousInstance::default().domain, None);
}

#[test]
fn search_then_next_page_with_an_empty_answer() {
    let mut session = YoutubeOptions::new();
    let request = session.search("lofi");
    assert_eq!(request, CatalogRequest::Search { keyword: "lofi".to_string() });
    let answer = found("inv.example", vec![video("a1", "One", 61), video("b2", "Two", 3600)]);
    assert_eq!(session.receive(answer), Ok(()));
    assert_eq!(session.page(), 1);
    assert_eq!(session.items().len(), 2);
    assert_eq!(session.instance().domain.as_deref(), Some("inv.example"));

    let request = session.next_page();
    assert_eq!(request, CatalogRequest::Page { keyword: "lofi".to_string(), page: 2 });
    assert_eq!(session.receive(CatalogResponse::Page { items: vec![] }), Ok(()));
    assert_eq!(session.page(), 2);
    assert!(session.items().is_empty());
    assert_eq!(session.instance().domain.as_deref(), Some("inv.example"));
}

#[test]
fn next_page_counts_even_if_the_query_fails() {
    let mut session = YoutubeOptions::new();
    session.search("lofi");
    session.receive(found("inv.example", vec![video("a1", "One", 61)])).unwrap();
    session.next_page();
    let failed = CatalogResponse::Failed { reason: "timed out".to_string() };
    assert_eq!(session.receive(failed), Err(CatalogError::Backend("timed out".to_string())));
    assert_eq!(session.page(), 2);
    assert_eq!(session.items(), &vec![video("a1", "One", 61)]);
}

#[test]
fn prev_page_on_page_one_changes_nothing() {
    let mut session = YoutubeOptions::new();
    session.search("lofi");
    session.receive(found("inv.example", vec![video("a1", "One", 61)])).unwrap();
    assert_eq!(session.prev_page(), None);
    assert_eq!(session.page(), 1);
    assert_eq!(session.items(), &vec![video("a1", "One", 61)]);
    assert_eq!(session.search_word(), "lofi");
    assert_eq!(session.instance(), &backend("inv.example"));
}

#[test]
fn prev_page_goes_back_and_asks_for_the_page() {
    let mut session = YoutubeOptions::new();
    session.search("jazz");
    session.receive(found("inv.example", vec![video("a1", "One", 61)])).unwrap();
    session.next_page();
    session.receive(CatalogResponse::Page { items: vec![video("c3", "Three", 5)] }).unwrap();
    session.next_page();
    session.receive(CatalogResponse::Page { items: vec![] }).unwrap();
    assert_eq!(session.page(), 3);

    let request = session.prev_page();
    assert_eq!(request, Some(CatalogRequest::Page { keyword: "jazz".to_string(), page: 2 }));
    assert_eq!(session.page(), 2);
    let failed = CatalogResponse::Failed { reason: "down".to_string() };
    assert_eq!(session.receive(failed), Err(CatalogError::Backend("down".to_string())));
    assert_eq!(session.page(), 2);
    assert!(session.items().is_empty());

    session.prev_page();
    session.receive(CatalogResponse::Page { items: vec![video("a1", "One", 61)] }).unwrap();
    assert_eq!(session.page(), 1);
    assert_eq!(session.items(), &vec![video("a1", "One", 61)]);
}

#[test]
fn a_failed_search_keeps_the_results_and_records_the_keyword() {
    let mut session = YoutubeOptions::new();
    session.search("lofi");
    session.receive(found("inv.example", vec![video("a1", "One", 61)])).unwrap();
    session.next_page();
    session.receive(CatalogResponse::Page { items: vec![video("b2", "Two", 62)] }).unwrap();

    session.search("rock");
    assert_eq!(session.search_word(), "rock");
    let failed = CatalogResponse::Failed { reason: "no backend".to_string() };
    assert_eq!(session.receive(failed), Err(CatalogError::Backend("no backend".to_string())));
    assert_eq!(session.search_word(), "rock");
    assert_eq!(session.page(), 2);
    assert_eq!(session.items(), &vec![video("b2", "Two", 62)]);
    assert_eq!(session.instance(), &backend("inv.example"));
}

#[test]
fn a_new_search_starts_again_at_page_one() {
    let mut session = YoutubeOptions::new();
    session.search("lofi");
    session.receive(found("one.example", vec![video("a1", "One", 61)])).unwrap();
    session.next_page();
    session.receive(CatalogResponse::Page { items: vec![] }).unwrap();
    session.search("rock");
    session.receive(found("two.example", vec![video("r1", "Rock", 7)])).unwrap();
    assert_eq!(session.page(), 1);
    assert_eq!(session.items(), &vec![video("r1", "Rock", 7)]);
    assert_eq!(session.instance(), &backend("two.example"));
}

#[test]
fn get_by_index_finds_entries_and_reports_the_rest() {
    let mut session = YoutubeOptions::new();
    assert_eq!(session.get_by_index(0), Err(CatalogError::IndexNotFound));
    assert_eq!(session.get_by_index(usize::MAX), Err(CatalogError::IndexNotFound));
    session.search("lofi");
    session.receive(found("inv.example", vec![video("a1", "One", 61), video("b2", "Two", 62)]))
        .unwrap();
    assert_eq!(session.get_by_index(0), Ok(&video("a1", "One", 61)));
    assert_eq!(session.get_by_index(1), Ok(&video("b2", "Two", 62)));
    assert_eq!(session.get_by_index(2), Err(CatalogError::IndexNotFound));
    assert_eq!(session.get_by_index(usize::MAX), Err(CatalogError::IndexNotFound));
}

#[test]
fn errors_have_words() {
    assert_eq!(CatalogError::IndexNotFound.message(), "index not found");
    assert_eq!(CatalogError::Backend("no route".to_string()).message(), "no route");
}
