use termusic::activity::{MainActivity, PageTurn, ScreenUpdate};
use termusic::catalog::{CatalogRequest, CatalogResponse, InvidiousInstance, YoutubeVideo};
use termusic::download::JobPhase;
use termusic::table::{TableRow, TableUpdate};

fn video(id: &str, title: &str, seconds: u64) -> YoutubeVideo {
    YoutubeVideo { title: title.to_string(), length_seconds: seconds, video_id: id.to_string() }
}

fn found(domain: &str, items: Vec<YoutubeVideo>) -> CatalogResponse {
    CatalogResponse::Found { instance: InvidiousInstance { domain: Some(domain.to_string()) }, items }
}

fn searched() -> MainActivity {
    let mut activity = MainActivity::new();
    activity.youtube_options_search("lofi");
    activity.youtube_options_receive(found(
        "inv.example",
        vec![video("a1", "One", 61), video("b2", "Two", 3600)],
    ));
    activity
}

#[test]
fn before_the_first_search_there_is_nothing_to_show() {
    let activity = MainActivity::new();
    assert_eq!(activity.sync_youtube_options(), TableUpdate::Unchanged);
    assert_eq!(activity.youtube_options().page(), 1);
}

#[test]
fn a_search_shows_the_first_page() {
    let mut activity = MainActivity::new();
    let request = activity.youtube_options_search("lofi");
    assert_eq!(request, CatalogRequest::Search { keyword: "lofi".to_string() });
    let screen = activity.youtube_options_receive(found(
        "inv.example",
        vec![video("a1", "One", 61), video("b2", "Two", 3600)],
    ));
    assert_eq!(
        screen,
        ScreenUpdate::Table(TableUpdate::Page {
            title: "── Page 1 ──┼─ Tab/Shift+Tab switch pages ─┼─ inv.example ─────".to_string(),
            rows: vec![
                TableRow { duration: "[1m 1s ] ".to_string(), name: "One".to_string() },
                TableRow { duration: "[1h    ] ".to_string(), name: "Two".to_string() },
            ],
        })
    );
}

#[test]
fn an_empty_page_shows_a_notice() {
    let mut activity = searched();
    let request = activity.youtube_options_next_page();
    assert_eq!(request, CatalogRequest::Page { keyword: "lofi".to_string(), page: 2 });
    let screen = activity.youtube_options_receive(CatalogResponse::Page { items: vec![] });
    assert_eq!(
        screen,
        ScreenUpdate::Table(TableUpdate::Notice(
            "Empty result.Probably inv.example is down.".to_string()
        ))
    );
    assert_eq!(activity.youtube_options().page(), 2);
}

#[test]
fn a_failed_query_shows_the_error() {
    let mut activity = searched();
    activity.youtube_options_next_page();
    let screen = activity
        .youtube_options_receive(CatalogResponse::Failed { reason: "timed out".to_string() });
    assert_eq!(screen, ScreenUpdate::Error("search error: timed out".to_string()));
    assert_eq!(activity.youtube_options().page(), 2);
    assert_eq!(activity.youtube_options().items().len(), 2);
}

#[test]
fn the_page_before_page_one_is_page_one() {
    let mut activity = searched();
    let turn = activity.youtube_options_prev_page();
    assert_eq!(turn, PageTurn::Show(activity.sync_youtube_options()));
    assert_eq!(activity.youtube_options().page(), 1);
}

#[test]
fn the_page_before_a_later_page_is_asked_for() {
    let mut activity = searched();
    activity.youtube_options_next_page();
    activity.youtube_options_receive(CatalogResponse::Page { items: vec![video("c3", "Three", 1)] });
    let screen = activity.sync_youtube_options();
    assert_eq!(
        screen,
        TableUpdate::Page {
            title: "── Page 2 ──┼─ Tab/Shift+Tab switch pages ─┼─ inv.example ─────".to_string(),
            rows: vec![TableRow { duration: "[1s    ] ".to_string(), name: "Three".to_string() }],
        }
    );
    let turn = activity.youtube_options_prev_page();
    assert_eq!(turn, PageTurn::Ask(CatalogRequest::Page { keyword: "lofi".to_string(), page: 1 }));
    assert_eq!(activity.youtube_options().page(), 1);
}

#[test]
fn a_download_addresses_the_entry() {
    let activity = searched();
    let job = activity.youtube_options_download(1, Some("/music"), true).unwrap();
    assert_eq!(job.url(), "https://www.youtube.com/watch?v=b2");
    assert_eq!(job.dir(), "/music");
    assert_eq!(job.phase(), &JobPhase::Idle);
}

#[test]
fn no_entry_no_download() {
    let activity = searched();
    assert!(activity.youtube_options_download(2, Some("/music"), true).is_none());
    assert!(MainActivity::new().youtube_options_download(0, None, false).is_none());
}

#[test]
fn a_download_goes_beside_a_selected_file() {
    let activity = MainActivity::new();
    let job = activity.youtube_dl("https://example.org/v", Some("music/rock/a.mp3"), false);
    assert_eq!(job.dir(), "music/rock");
    assert_eq!(job.url(), "https://example.org/v");
    let job = activity.youtube_dl("https://example.org/v", None, false);
    assert_eq!(job.dir(), "");
}
