use termusic::extract::{extract_filepath, find_filepath, find_marker};

/// The path as the pattern of the tool's log gives it.
fn by_pattern(output: &str, dir: &str) -> String {
    let re = regex::Regex::new(r"\[ffmpeg\] Destination: (?P<name>.*)\.mp3").unwrap();
    let mut filename = String::new();
    filename.push_str(dir);
    filename.push('/');
    if let Some(cap) = re.captures(output) {
        filename.push_str(cap.name("name").unwrap().as_str());
    }
    filename.push_str(".mp3");
    filename
}

fn chars(text: &str) -> Vec<char> {
    text.chars().collect()
}

#[test]
fn test_youtube_output_parsing() {
    assert_eq!(extract_filepath(r"sdflsdf [ffmpeg] Destination: 观众说“小哥哥，到饭点了”《干饭人之歌》走，端起饭盆干饭去.mp3 sldflsdfj","/tmp"),"/tmp/观众说“小哥哥，到饭点了”《干饭人之歌》走，端起饭盆干饭去.mp3".to_string());
}

#[test]
fn names_the_file_of_the_marker() {
    let path = extract_filepath("... [ffmpeg] Destination: My Song.mp3 ...", "/music");
    assert_eq!(path, "/music/My Song.mp3");
    assert!(path.starts_with("/music/"));
}

#[test]
fn gives_an_empty_name_without_marker() {
    assert_eq!(extract_filepath("[download] 100% of 3.2MiB", "/music"), "/music/.mp3");
    assert_eq!(extract_filepath("", "/music"), "/music/.mp3");
    assert_eq!(extract_filepath("", ""), "/.mp3");
}

#[test]
fn tells_whether_the_log_names_a_file() {
    assert_eq!(
        find_filepath("... [ffmpeg] Destination: My Song.mp3 ...", "/music"),
        Some("/music/My Song.mp3".to_string())
    );
    assert_eq!(
        find_filepath("[ffmpeg] Destination: .mp3", "/music"),
        Some("/music/.mp3".to_string())
    );
    assert_eq!(find_filepath("[download] 100% of 3.2MiB", "/music"), None);
    assert_eq!(find_filepath("[ffmpeg] Destination: broken\n.mp3", "/music"), None);
    assert_eq!(find_filepath("", ""), None);
}

#[test]
fn finds_the_marker_after_other_bracketed_lines() {
    let log = "[youtube] abc: Downloading webpage\n[download] Destination: v.webm\n[download] 100%\n[ffmpeg] Destination: 歌 one.mp3\nDeleting v.webm";
    assert_eq!(extract_filepath(log, "/m"), "/m/歌 one.mp3");
    assert_eq!(find_filepath(log, "/m"), Some("/m/歌 one.mp3".to_string()));
}

#[test]
fn takes_the_longest_name_on_the_line() {
    assert_eq!(
        extract_filepath("[ffmpeg] Destination: a.mp3 b.mp3 c", "d"),
        "d/a.mp3 b.mp3"
    );
}

#[test]
fn takes_the_first_marker() {
    let log = "[ffmpeg] Destination: one.mp3\n[ffmpeg] Destination: two.mp3\n";
    assert_eq!(extract_filepath(log, "/m"), "/m/one.mp3");
}

#[test]
fn keeps_the_name_on_one_line() {
    let log = "[ffmpeg] Destination: broken\n.mp3\n[ffmpeg] Destination: whole.mp3";
    assert_eq!(extract_filepath(log, "/m"), "/m/whole.mp3");
    assert_eq!(extract_filepath("[ffmpeg] Destination: broken\n.mp3", "/m"), "/m/.mp3");
}

#[test]
fn accepts_an_empty_name() {
    assert_eq!(extract_filepath("[ffmpeg] Destination: .mp3", "/m"), "/m/.mp3");
    assert_eq!(find_marker(&chars("[ffmpeg] Destination: .mp3")), Some((0, 22)));
}

#[test]
fn finds_where_the_marker_stands() {
    assert_eq!(find_marker(&chars("ab [ffmpeg] Destination: x.mp3 y")), Some((3, 26)));
    assert_eq!(find_marker(&chars("ab [ffmpeg] Destination: x.mp4 y")), None);
    assert_eq!(find_marker(&chars("[ffmpeg] Destination:x.mp3")), None);
    assert_eq!(find_marker(&chars("")), None);
    assert_eq!(find_marker(&chars("观 [ffmpeg] Destination: 众.mp3")), Some((2, 25)));
}

#[test]
fn agrees_with_the_pattern_of_the_log() {
    let logs = [
        "",
        ".mp3",
        "[ffmpeg] Destination: ",
        "[ffmpeg] Destination: .mp3",
        "[ffmpeg] Destination: a.mp3",
        "[ffmpeg] Destination: a.mp3.mp3",
        "[ffmpeg] Destination: a.mp3 and b.mp3 and c",
        "[ffmpeg] Destination: a.mp",
        "[ffmpeg] Destination: a\n.mp3",
        "[ffmpeg] Destination: a\r.mp3",
        "[ffmpeg] Destination: a.mp3\r\nrest",
        "[ffmpeg] Destination: a\n[ffmpeg] Destination: b.mp3",
        "[ffmpeg] Destination: a\n[ffmpeg] Destination: b\nc.mp3",
        "[ffmpeg] Destination: [ffmpeg] Destination: c.mp3",
        "[ffmpeg] Destination: x [ffmpeg] Destination: y.mp3 z.mp3",
        "[ffmpeg]  Destination: a.mp3",
        "[FFMPEG] Destination: a.mp3",
        "x[ffmpeg] Destination: dir/sub/a.mp3\n",
        "[download] Destination: v.webm\n[ffmpeg] Destination: v.mp3\nDeleting v.webm",
        "[ffmpeg] Destination: 观众说“小哥哥”.mp3 后",
        "[ffmpeg] Destination: a.mp3\n[ffmpeg] Destination: 歌.mp3",
        "前 [ffmpeg] Destination: \u{1F3B5} tune.mp3.mp3x",
        "[ffmpeg] Destination: a.MP3",
        "[ffmpeg] Destination: a.mp3[ffmpeg] Destination: b.mp3",
        "\n\n[ffmpeg] Destination: \t.mp3\n",
    ];
    for log in logs {
        for dir in ["", "/tmp", "relative/dir", "/目录"] {
            assert_eq!(extract_filepath(log, dir), by_pattern(log, dir), "log {:?}", log);
        }
    }
}
