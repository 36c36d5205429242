use termusic::song::{lines, sorted_descriptions, LyricFrame, SongTags};

fn song(descriptions: Option<Vec<&str>>) -> SongTags {
    SongTags {
        artist: None,
        title: None,
        lyric_frames_is_empty: false,
        lyric_frames: descriptions.map(|ds| {
            ds.iter()
                .map(|d| LyricFrame { description: d.to_string(), text: String::new() })
                .collect()
        }),
        lyric_selected: None,
        lyric_selected_index: 0,
    }
}

#[test]
fn a_text_splits_at_its_line_breaks() {
    assert_eq!(lines("a\nb"), vec!["a", "b"]);
    assert_eq!(lines("one line"), vec!["one line"]);
    assert_eq!(lines(""), vec![""]);
    assert_eq!(lines("\n"), vec!["", ""]);
    assert_eq!(lines("a\n"), vec!["a", ""]);
    assert_eq!(lines("\na"), vec!["", "a"]);
    assert_eq!(lines("a\n\nb"), vec!["a", "", "b"]);
    assert_eq!(lines("鸟\r\n飞"), vec!["鸟\r", "飞"]);
}

#[test]
fn lines_are_what_split_gives() {
    for text in ["", "x", "\n", "a\nb\nc", "\n\n\n", "[00:01.00]la\n[00:02.00]lala\n", "é\nü"] {
        let expected: Vec<String> = text.split('\n').map(|l| l.to_string()).collect();
        assert_eq!(lines(text), expected);
    }
}

#[test]
fn descriptions_come_in_ascending_order() {
    assert_eq!(sorted_descriptions(&song(Some(vec!["eng", "chi", "Zulu"]))), vec!["Zulu", "chi", "eng"]);
    assert_eq!(sorted_descriptions(&song(Some(vec!["b", "a", "b", "", "ab"]))), vec!["", "a", "ab", "b", "b"]);
    assert_eq!(sorted_descriptions(&song(Some(vec!["é", "z", "e"]))), vec!["e", "z", "é"]);
    assert_eq!(sorted_descriptions(&song(Some(vec![]))), Vec::<String>::new());
    assert_eq!(sorted_descriptions(&song(None)), Vec::<String>::new());
}
