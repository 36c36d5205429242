use termusic::catalog::YoutubeVideo;
use termusic::table::{
    column_names, format_cell, table_row, table_rows, TableRow, DURATION_COLUMNS, DURATION_SHARE,
    DURATION_WORDS_LIMIT, NAME_SHARE,
};
use termusic::text::{chars_of, decimal, occurs};

fn video(id: &str, title: &str, seconds: u64) -> YoutubeVideo {
    YoutubeVideo { title: title.to_string(), length_seconds: seconds, video_id: id.to_string() }
}

#[test]
fn a_duration_is_padded_to_six_columns() {
    assert_eq!(format_cell("5s"), "[5s    ] ");
    assert_eq!(format_cell("3m 25s"), "[3m 25s] ");
    assert_eq!(format_cell(""), "[      ] ");
}

#[test]
fn a_long_duration_is_cut_to_six_columns() {
    assert_eq!(format_cell("1h 2m 5s"), "[1h 2m ] ");
    assert_eq!(format_cell("1day 3h"), "[1day 3] ");
}

#[test]
fn the_longest_duration_is_cut_like_any_other() {
    let row = table_row(&video("a1", "", u64::MAX));
    assert_eq!(row.duration, "[584542] ");
}

#[test]
fn a_row_shows_the_duration_in_words_and_the_title() {
    assert_eq!(
        table_row(&video("a1", "One", 205)),
        TableRow { duration: "[3m 25s] ".to_string(), name: "One".to_string() }
    );
    assert_eq!(
        table_row(&video("a1", "歌", 0)),
        TableRow { duration: "[0s    ] ".to_string(), name: "歌".to_string() }
    );
    assert_eq!(table_row(&video("a1", "", 3725)).duration, "[1h 2m ] ");
    assert_eq!(table_row(&video("a1", "", 59)).duration, "[59s   ] ");
}

#[test]
fn rows_follow_the_entries() {
    assert_eq!(table_rows(&vec![]), vec![]);
    assert_eq!(
        table_rows(&vec![video("a1", "One", 61), video("b2", "Two", 7200)]),
        vec![
            TableRow { duration: "[1m 1s ] ".to_string(), name: "One".to_string() },
            TableRow { duration: "[2h    ] ".to_string(), name: "Two".to_string() },
        ]
    );
}

#[test]
fn the_columns_are_named_and_shared_out() {
    assert_eq!(column_names(), ("Duration".to_string(), "Name".to_string()));
    assert_eq!((DURATION_SHARE, NAME_SHARE), (15, 85));
    assert_eq!(DURATION_COLUMNS, 6);
    assert_eq!(DURATION_WORDS_LIMIT, 45);
}

#[test]
fn numbers_are_written_in_decimal() {
    assert_eq!(decimal(0), "0");
    assert_eq!(decimal(7), "7");
    assert_eq!(decimal(10), "10");
    assert_eq!(decimal(1905), "1905");
    assert_eq!(decimal(u32::MAX), "4294967295");
}

#[test]
fn characters_and_patterns() {
    assert_eq!(chars_of("a歌b"), vec!['a', '歌', 'b']);
    assert_eq!(chars_of(""), Vec::<char>::new());
    let text = chars_of("abcabc");
    assert!(occurs(&text, &chars_of("abc"), 0));
    assert!(occurs(&text, &chars_of("abc"), 3));
    assert!(!occurs(&text, &chars_of("abc"), 1));
    assert!(!occurs(&text, &chars_of("abc"), 4));
    assert!(!occurs(&text, &chars_of("abc"), usize::MAX));
    assert!(occurs(&text, &chars_of(""), 6));
    assert!(!occurs(&text, &chars_of(""), 7));
}

#[test]
fn durations_in_words_are_short_and_plain() {
    let year = 31_557_600u64;
    let month = 2_630_016u64;
    let many = [
        0,
        1,
        59,
        3_599,
        86_399,
        month - 1,
        year - 1,
        11 * month + 30 * 86_400 + 9 * 3_600 + 59 * 60 + 59,
        u64::MAX,
        u64::MAX - 1,
        (u64::MAX / year) * year - 1,
        99_999_999_999 * year + 11 * month + 30 * 86_400 + 9 * 3_600 + 59 * 60 + 59,
    ];
    for seconds in many {
        let words = humantime::format_duration(std::time::Duration::from_secs(seconds)).to_string();
        assert!(words.is_ascii(), "{}", words);
        assert!(words.len() <= DURATION_WORDS_LIMIT, "{}", words);
        let row = table_row(&video("a1", "", seconds));
        assert_eq!(row.duration, format!("[{:<6.6}] ", words));
    }
}
