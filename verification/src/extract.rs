//! Recovery of the audio file's path from the download tool's log.
//!
//! The tool names the converted file in a line of the form
//! `[ffmpeg] Destination: <name>.mp3`. The first such marker of the log
//! counts, and within its line the name reaches to the last `.mp3`.

use crate::text::{chars_of, occurs, occurs_at};
use vstd::prelude::*;
use vstd::string::StringExecFns;

verus! {

/// The text that opens a destination marker.
pub open spec fn destination_prefix() -> Seq<char> {
    "[ffmpeg] Destination: "@
}

/// The text that closes a destination marker.
pub open spec fn audio_suffix() -> Seq<char> {
    ".mp3"@
}

/// A file name that begins at `from` ends before `end`: the suffix stands at
/// `end`, and the name does not leave its line.
pub open spec fn name_ends_at(text: Seq<char>, from: int, end: int) -> bool {
    &&& from <= end
    &&& occurs_at(text, audio_suffix(), end)
    &&& forall|k: int| from <= k < end ==> text[k] != '\n'
}

/// A destination marker begins at `start`, and its file name ends before `end`.
pub open spec fn marker_at(text: Seq<char>, start: int, end: int) -> bool {
    &&& occurs_at(text, destination_prefix(), start)
    &&& name_ends_at(text, start + destination_prefix().len(), end)
}

/// A destination marker begins at `start`.
pub open spec fn marker_starts_at(text: Seq<char>, start: int) -> bool {
    exists|end: int| marker_at(text, start, end)
}

/// The text holds a destination marker.
pub open spec fn has_marker(text: Seq<char>) -> bool {
    exists|start: int| marker_starts_at(text, start)
}

/// The marker that counts: no marker begins further left, and of the names
/// that begin at `start` this is the longest.
pub open spec fn is_first_marker(text: Seq<char>, start: int, end: int) -> bool {
    &&& marker_at(text, start, end)
    &&& forall|s: int| s < start ==> !marker_starts_at(text, s)
    &&& forall|e: int| e > end ==> !marker_at(text, start, e)
}

/// The file name of the marker that counts, without its suffix.
pub open spec fn captured_name(text: Seq<char>) -> Option<Seq<char>> {
    if has_marker(text) {
        let (start, end) = choose|start: int, end: int| is_first_marker(text, start, end);
        Some(text.subrange(start + destination_prefix().len(), end))
    } else {
        None
    }
}

/// The path of the audio file: the directory, a slash, the captured name
/// (nothing where the log has no marker) and the suffix.
pub open spec fn file_path(dir: Seq<char>, output: Seq<char>) -> Seq<char> {
    let name = match captured_name(output) {
        Some(name) => name,
        None => Seq::empty(),
    };
    dir + "/"@ + name + audio_suffix()
}

/// Two markers that both count are the same marker.
pub proof fn lemma_first_marker_unique(text: Seq<char>, s1: int, e1: int, s2: int, e2: int)
    requires
        is_first_marker(text, s1, e1),
        is_first_marker(text, s2, e2),
    ensures
        s1 == s2,
        e1 == e2,
{
    assert(marker_starts_at(text, s1));
    assert(marker_starts_at(text, s2));
}

/// The captured name is the text between the prefix and the suffix of the
/// marker that counts.
pub proof fn lemma_captured_name(text: Seq<char>, start: int, end: int)
    requires
        is_first_marker(text, start, end),
    ensures
        has_marker(text),
        captured_name(text) == Some(text.subrange(start + destination_prefix().len(), end)),
{
    assert(marker_starts_at(text, start));
    let (s, e) = choose|s: int, e: int| is_first_marker(text, s, e);
    lemma_first_marker_unique(text, start, end, s, e);
}

/// The leftmost position at or before `bound` where a marker begins.
proof fn leftmost_start(text: Seq<char>, bound: int) -> (start: int)
    requires
        marker_starts_at(text, bound),
    ensures
        marker_starts_at(text, start),
        forall|s: int| s < start ==> !marker_starts_at(text, s),
    decreases bound,
{
    let e = choose|e: int| marker_at(text, bound, e);
    assert(0 <= bound);
    if exists|s: int| s < bound && marker_starts_at(text, s) {
        let s = choose|s: int| s < bound && marker_starts_at(text, s);
        let e2 = choose|e: int| marker_at(text, s, e);
        assert(0 <= s);
        leftmost_start(text, s)
    } else {
        bound
    }
}

/// The rightmost position at or after `bound` where a name of the marker at
/// `start` ends.
proof fn rightmost_end(text: Seq<char>, start: int, bound: int) -> (end: int)
    requires
        marker_at(text, start, bound),
    ensures
        marker_at(text, start, end),
        forall|e: int| e > end ==> !marker_at(text, start, e),
    decreases text.len() - bound,
{
    if exists|e: int| e > bound && marker_at(text, start, e) {
        let e = choose|e: int| e > bound && marker_at(text, start, e);
        rightmost_end(text, start, e)
    } else {
        bound
    }
}

/// A text that holds a marker holds exactly one marker that counts, and the
/// captured name is the text between its prefix and its suffix.
pub proof fn lemma_marker_is_captured(text: Seq<char>) -> (marker: (int, int))
    requires
        has_marker(text),
    ensures
        is_first_marker(text, marker.0, marker.1),
        captured_name(text) == Some(
            text.subrange(marker.0 + destination_prefix().len(), marker.1),
        ),
{
    let s0 = choose|s: int| marker_starts_at(text, s);
    let start = leftmost_start(text, s0);
    let e0 = choose|e: int| marker_at(text, start, e);
    let end = rightmost_end(text, start, e0);
    lemma_captured_name(text, start, end);
    (start, end)
}

/// Whatever the log holds, the path begins with the directory and a slash and
/// ends with the suffix.
pub proof fn lemma_path_stays_in_dir(dir: Seq<char>, output: Seq<char>)
    ensures
        file_path(dir, output).len() >= dir.len() + 5,
        file_path(dir, output).subrange(0, dir.len() as int + 1) == dir + "/"@,
        file_path(dir, output).subrange(
            file_path(dir, output).len() - 4,
            file_path(dir, output).len() as int,
        ) == audio_suffix(),
{
    reveal_strlit("/");
    reveal_strlit(".mp3");
    let path = file_path(dir, output);
    assert(path.subrange(0, dir.len() as int + 1) =~= dir + "/"@);
    assert(path.subrange(path.len() - 4, path.len() as int) =~= audio_suffix());
}

/// A log with a marker names the file: the path is the directory, a slash,
/// the name exactly as the marker that counts holds it, and the suffix; and
/// it begins with the directory and a slash.
pub proof fn lemma_path_of_marked_output(dir: Seq<char>, output: Seq<char>) -> (marker: (int, int))
    requires
        has_marker(output),
    ensures
        is_first_marker(output, marker.0, marker.1),
        captured_name(output) == Some(
            output.subrange(marker.0 + destination_prefix().len(), marker.1),
        ),
        file_path(dir, output) == dir + "/"@ + output.subrange(
            marker.0 + destination_prefix().len(),
            marker.1,
        ) + ".mp3"@,
        file_path(dir, output).subrange(0, dir.len() as int + 1) == dir + "/"@,
{
    lemma_path_stays_in_dir(dir, output);
    lemma_marker_is_captured(output)
}

/// A log that is built around one marker names what the marker holds:
/// where the prefix does not occur before the marker, the name holds no line
/// break, and no suffix follows on the marker's line, the captured name is
/// the name between prefix and suffix, whatever characters it is made of and
/// whatever other lines come first.
pub proof fn lemma_capture_of_built_log(
    dir: Seq<char>,
    before: Seq<char>,
    name: Seq<char>,
    after: Seq<char>,
)
    requires
        forall|k: int| !occurs_at(before, destination_prefix(), k),
        forall|i: int| 0 <= i < name.len() ==> name[i] != '\n',
        forall|k: int| #[trigger]
            occurs_at(after, audio_suffix(), k) ==> exists|j: int|
                0 <= j < k && after[j] == '\n',
    ensures
        captured_name(before + destination_prefix() + name + audio_suffix() + after) == Some(
            name,
        ),
        file_path(dir, before + destination_prefix() + name + audio_suffix() + after) == dir
            + "/"@ + name + ".mp3"@,
{
    reveal_strlit("[ffmpeg] Destination: ");
    reveal_strlit(".mp3");
    let prefix = destination_prefix();
    let suffix = audio_suffix();
    let text = before + prefix + name + suffix + after;
    let start = before.len() as int;
    let from = start + prefix.len();
    let end = from + name.len();
    assert(text.subrange(start, from) =~= prefix);
    assert(text.subrange(from, end) =~= name);
    assert(text.subrange(end, end + 4) =~= suffix);
    assert forall|k: int| from <= k < end implies text[k] != '\n' by {
        assert(text[k] == name[k - from]);
    }
    assert(marker_at(text, start, end));
    assert forall|s: int| s < start implies !marker_starts_at(text, s) by {
        if marker_starts_at(text, s) {
            let e = choose|e: int| marker_at(text, s, e);
            let found = text.subrange(s, s + prefix.len());
            if s + prefix.len() <= start {
                assert(before.subrange(s, s + prefix.len()) =~= found);
                assert(occurs_at(before, prefix, s));
            } else {
                // The prefix holds `[` at its start only, so it cannot begin
                // before the marker and reach into it.
                assert(found[start - s] == text[start]);
                assert(text[start] == prefix[0]);
            }
        }
    }
    assert forall|e: int| e > end implies !marker_at(text, start, e) by {
        if marker_at(text, start, e) {
            let found = text.subrange(e, e + 4);
            assert(found[0] == text[e]);
            if e < end + 4 {
                assert(text[e] == suffix[e - end]);
            } else {
                let k = e - (end + 4);
                assert(after.subrange(k, k + 4) =~= found);
                assert(occurs_at(after, suffix, k));
                let j = choose|j: int| 0 <= j < k && after[j] == '\n';
                assert(text[end + 4 + j] == after[j]);
            }
        }
    }
    lemma_captured_name(text, start, end);
}

/// A log without `[`, or without the suffix, holds no marker.
pub proof fn lemma_no_marker_without_its_parts(text: Seq<char>)
    requires
        (forall|i: int| 0 <= i < text.len() ==> text[i] != '[') || (forall|k: int|
            !occurs_at(text, audio_suffix(), k)),
    ensures
        !has_marker(text),
{
    reveal_strlit("[ffmpeg] Destination: ");
    if has_marker(text) {
        let s = choose|s: int| marker_starts_at(text, s);
        let e = choose|e: int| marker_at(text, s, e);
        assert(text.subrange(s, s + destination_prefix().len())[0] == text[s]);
    }
}

/// A log without a marker gives the path of a file with an empty name.
pub proof fn lemma_path_without_marker(dir: Seq<char>, output: Seq<char>)
    requires
        !has_marker(output),
    ensures
        file_path(dir, output) == dir + "/"@ + ".mp3"@,
{
    assert(dir + "/"@ + Seq::<char>::empty() =~= dir + "/"@);
}

/// The suffix holds no line break.
proof fn lemma_suffix_is_one_line()
    ensures
        audio_suffix().len() == 4,
        forall|k: int| 0 <= k < 4 ==> audio_suffix()[k] != '\n',
{
    reveal_strlit(".mp3");
}

/// Where the longest name that begins at `from` ends, if any name does.
fn longest_name_end(text: &Vec<char>, suffix: &Vec<char>, from: usize) -> (found: Option<usize>)
    requires
        suffix@ == audio_suffix(),
        from <= text@.len(),
    ensures
        (match found {
            Some(end) => {
                &&& name_ends_at(text@, from as int, end as int)
                &&& forall|e: int| e > end ==> !name_ends_at(text@, from as int, e)
            },
            None => forall|e: int| !name_ends_at(text@, from as int, e),
        }),
{
    let n: usize = text.len();
    let q: usize = suffix.len();
    proof {
        lemma_suffix_is_one_line();
    }
    let mut stop: usize = from;
    while stop < n && text[stop] != '\n'
        invariant
            n == text@.len(),
            from <= stop <= n,
            forall|k: int| from <= k < stop ==> text@[k] != '\n',
        decreases n - stop,
    {
        stop += 1;
    }
    // No name reaches the line break at `stop`, nor the end of the text.
    assert forall|e: int| e + q > stop implies !name_ends_at(text@, from as int, e) by {
        if name_ends_at(text@, from as int, e) {
            assert(stop < n);
            if e > stop {
                assert(text@[stop as int] == '\n');
            } else {
                let sub = text@.subrange(e, e + q);
                assert(sub[stop - e] == text@[stop as int]);
            }
        }
    }
    if stop - from < q {
        return None;
    }
    let mut end: usize = stop - q;
    loop
        invariant
            n == text@.len(),
            q == 4,
            suffix@ == audio_suffix(),
            from <= end,
            end + q <= stop <= n,
            forall|k: int| from <= k < stop ==> text@[k] != '\n',
            forall|e: int| e > end ==> !name_ends_at(text@, from as int, e),
        decreases end - from,
    {
        if occurs(text, suffix, end) {
            return Some(end);
        }
        if end == from {
            return None;
        }
        end -= 1;
    }
}

/// The marker of `text` that counts, if `text` holds a marker: where it
/// begins, and where its file name ends.
pub fn find_marker(text: &Vec<char>) -> (found: Option<(usize, usize)>)
    ensures
        (match found {
            Some((start, end)) => is_first_marker(text@, start as int, end as int),
            None => !has_marker(text@),
        }),
{
    let prefix = chars_of("[ffmpeg] Destination: ");
    let suffix = chars_of(".mp3");
    let n: usize = text.len();
    let p: usize = prefix.len();
    proof {
        reveal_strlit("[ffmpeg] Destination: ");
    }
    let mut start: usize = 0;
    while start < n && n - start >= p
        invariant
            n == text@.len(),
            p == 22,
            prefix@ == destination_prefix(),
            destination_prefix().len() == 22,
            suffix@ == audio_suffix(),
            start <= n,
            forall|s: int| s < start ==> !marker_starts_at(text@, s),
        decreases n - start,
    {
        if occurs(text, &prefix, start) {
            match longest_name_end(text, &suffix, start + p) {
                Some(end) => {
                    assert(marker_at(text@, start as int, end as int));
                    return Some((start, end));
                },
                None => {},
            }
        }
        assert(!marker_starts_at(text@, start as int)) by {
            if marker_starts_at(text@, start as int) {
                let e = choose|e: int| marker_at(text@, start as int, e);
                assert(name_ends_at(text@, start + p, e));
            }
        }
        start += 1;
    }
    assert forall|s: int| !marker_starts_at(text@, s) by {
        if s >= start && marker_starts_at(text@, s) {
            let e = choose|e: int| marker_at(text@, s, e);
            lemma_suffix_is_one_line();
        }
    }
    None
}

/// The path of the audio file that the tool's log `output` names, below
/// `dir`, if the log names a file. The name is taken as the log gives it,
/// whatever characters it holds.
pub fn find_filepath(output: &str, dir: &str) -> (found: Option<String>)
    ensures
        (match found {
            Some(path) => has_marker(output@) && path@ == file_path(dir@, output@),
            None => !has_marker(output@),
        }),
{
    let text = chars_of(output);
    match find_marker(&text) {
        Some((start, end)) => {
            proof {
                reveal_strlit("[ffmpeg] Destination: ");
                lemma_captured_name(text@, start as int, end as int);
            }
            let mut filename = String::from_str(dir);
            filename.append("/");
            filename.append(output.substring_char(start + 22, end));
            filename.append(".mp3");
            Some(filename)
        },
        None => None,
    }
}

/// The path of the audio file that the tool's log `output` names, below `dir`.
///
/// A log without a marker gives the path of a file with an empty name; the
/// call never fails. Whether the log names a file at all is what
/// `find_filepath` tells.
pub fn extract_filepath(output: &str, dir: &str) -> (path: String)
    ensures
        path@ == file_path(dir@, output@),
{
    match find_filepath(output, dir) {
        Some(path) => path,
        None => {
            let mut filename = String::from_str(dir);
            filename.append("/");
            filename.append(".mp3");
            assert(dir@ + "/"@ + Seq::<char>::empty() =~= dir@ + "/"@);
            filename
        },
    }
}

} // verus!
