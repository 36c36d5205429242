//! What the tag editor reads from a song, and how texts are put in order and
//! split into lines for it.

use crate::text::{chars_of, text_of, texts_model};
use vstd::prelude::*;
use vstd::relations::{sorted_by, total_ordering};
use vstd::seq_lib::lemma_sorted_unique;

verus! {

/// One set of lyrics in a song's tag.
#[derive(Debug, Clone, PartialEq, Eq)]
pub struct LyricFrame {
    /// What tells this set of lyrics from the others, mostly its language.
    pub description: String,
    /// The lyrics, line by line.
    pub text: String,
}

/// What a set of lyrics holds.
pub struct LyricModel {
    pub description: Seq<char>,
    pub text: Seq<char>,
}

impl View for LyricFrame {
    type V = LyricModel;

    open spec fn view(&self) -> LyricModel {
        LyricModel { description: self.description@, text: self.text@ }
    }
}

/// What the tag editor reads from a song.
#[derive(Debug, Clone, PartialEq, Eq)]
pub struct SongTags {
    pub artist: Option<String>,
    pub title: Option<String>,
    /// Whether the song has no lyrics at all.
    pub lyric_frames_is_empty: bool,
    /// The lyrics of the song, if its tag was read.
    pub lyric_frames: Option<Vec<LyricFrame>>,
    /// The lyrics that are selected, if any are.
    pub lyric_selected: Option<LyricFrame>,
    /// Where the selected lyrics stand among the others.
    pub lyric_selected_index: usize,
}

/// What a song holds for the tag editor.
pub struct SongModel {
    pub artist: Option<Seq<char>>,
    pub title: Option<Seq<char>>,
    pub lyric_frames_is_empty: bool,
    pub lyric_frames: Option<Seq<LyricModel>>,
    pub lyric_selected: Option<LyricModel>,
    pub lyric_selected_index: usize,
}

/// What a list of lyrics holds.
pub open spec fn lyrics_model(frames: Seq<LyricFrame>) -> Seq<LyricModel> {
    frames.map_values(|f: LyricFrame| f@)
}

impl View for SongTags {
    type V = SongModel;

    open spec fn view(&self) -> SongModel {
        SongModel {
            artist: text_of(self.artist),
            title: text_of(self.title),
            lyric_frames_is_empty: self.lyric_frames_is_empty,
            lyric_frames: match self.lyric_frames {
                Some(frames) => Some(lyrics_model(frames@)),
                None => None,
            },
            lyric_selected: match self.lyric_selected {
                Some(frame) => Some(frame@),
                None => None,
            },
            lyric_selected_index: self.lyric_selected_index,
        }
    }
}

impl SongModel {
    /// The descriptions of the song's lyrics, in the order of the tag.
    pub open spec fn descriptions(self) -> Seq<Seq<char>> {
        match self.lyric_frames {
            Some(frames) => frames.map_values(|f: LyricModel| f.description),
            None => Seq::empty(),
        }
    }

    /// The lines of the selected lyrics.
    pub open spec fn selected_lines(self) -> Seq<Seq<char>> {
        match self.lyric_selected {
            Some(frame) => lines_of(frame.text),
            None => Seq::empty(),
        }
    }
}

/// The lines of a text: what stands between its line breaks. A text without
/// line break is one line, and a text that ends in a line break ends in an
/// empty line.
pub open spec fn lines_of(text: Seq<char>) -> Seq<Seq<char>>
    decreases text.len(),
{
    if text.len() == 0 {
        seq![Seq::empty()]
    } else {
        let before = lines_of(text.drop_last());
        if text.last() == '\n' {
            before.push(Seq::empty())
        } else {
            before.drop_last().push(before.last().push(text.last()))
        }
    }
}

/// The lines of a text.
pub fn lines(text: &str) -> (lines: Vec<String>)
    ensures
        texts_model(lines@) == lines_of(text@),
{
    let chars = chars_of(text);
    let n: usize = chars.len();
    let mut done: Vec<String> = Vec::new();
    let mut start: usize = 0;
    let mut i: usize = 0;
    assert(text@.take(0) =~= Seq::<char>::empty());
    assert(texts_model(done@) + seq![text@.subrange(0, 0)] =~= lines_of(text@.take(0)));
    while i < n
        invariant
            n == text@.len(),
            chars@ == text@,
            start <= i <= n,
            lines_of(text@.take(i as int)) == texts_model(done@) + seq![
                text@.subrange(start as int, i as int),
            ],
        decreases n - i,
    {
        let c = chars[i];
        proof {
            let before = lines_of(text@.take(i as int));
            assert(text@.take(i + 1).drop_last() =~= text@.take(i as int));
            assert(text@.take(i + 1).last() == c);
            assert(before.last() == text@.subrange(start as int, i as int));
            assert(before.drop_last() =~= texts_model(done@));
        }
        if c == '\n' {
            let ghost before = texts_model(done@);
            let line = text.substring_char(start, i);
            done.push(line.to_owned());
            assert(texts_model(done@) =~= before.push(text@.subrange(start as int, i as int)));
            start = i + 1;
            assert(text@.subrange(start as int, i + 1) =~= Seq::<char>::empty());
            assert(lines_of(text@.take(i + 1)) =~= texts_model(done@) + seq![
                text@.subrange(start as int, i + 1),
            ]);
        } else {
            assert(text@.subrange(start as int, i as int).push(c) =~= text@.subrange(
                start as int,
                i + 1,
            ));
            assert(lines_of(text@.take(i + 1)) =~= texts_model(done@) + seq![
                text@.subrange(start as int, i + 1),
            ]);
        }
        i += 1;
    }
    let line = text.substring_char(start, n);
    done.push(line.to_owned());
    assert(text@.take(n as int) =~= text@);
    assert(texts_model(done@) =~= lines_of(text@));
    done
}

/// `a` comes before `b`, or is `b`, in the order of texts: character by
/// character, by the characters' code points, and a text before every text
/// that it begins.
pub open spec fn text_le(a: Seq<char>, b: Seq<char>) -> bool
    decreases a.len(),
{
    if a.len() == 0 {
        true
    } else if b.len() == 0 {
        false
    } else if a[0] != b[0] {
        a[0] < b[0]
    } else {
        text_le(a.drop_first(), b.drop_first())
    }
}

/// `sorted` holds the texts of `source`, each as often as `source` does, in
/// ascending order.
pub open spec fn is_sorted_copy(sorted: Seq<Seq<char>>, source: Seq<Seq<char>>) -> bool {
    &&& sorted.to_multiset() == source.to_multiset()
    &&& forall|i: int, j: int| 0 <= i < j < sorted.len() ==> text_le(sorted[i], sorted[j])
}

/// Every text comes before itself or is itself.
proof fn lemma_text_le_reflexive(a: Seq<char>)
    ensures
        text_le(a, a),
    decreases a.len(),
{
    if a.len() > 0 {
        lemma_text_le_reflexive(a.drop_first());
    }
}

/// Two texts that come before each other are one text.
proof fn lemma_text_le_antisymmetric(a: Seq<char>, b: Seq<char>)
    requires
        text_le(a, b),
        text_le(b, a),
    ensures
        a == b,
    decreases a.len(),
{
    if a.len() == 0 {
        assert(a =~= b);
    } else {
        lemma_text_le_antisymmetric(a.drop_first(), b.drop_first());
        assert(a =~= seq![a[0]] + a.drop_first());
        assert(b =~= seq![b[0]] + b.drop_first());
    }
}

/// What comes before a text comes before every text that this one comes
/// before.
proof fn lemma_text_le_transitive(a: Seq<char>, b: Seq<char>, c: Seq<char>)
    requires
        text_le(a, b),
        text_le(b, c),
    ensures
        text_le(a, c),
    decreases a.len(),
{
    if a.len() > 0 && a[0] == b[0] && b[0] == c[0] {
        lemma_text_le_transitive(a.drop_first(), b.drop_first(), c.drop_first());
    }
}

/// Of two texts one comes before the other.
proof fn lemma_text_le_total(a: Seq<char>, b: Seq<char>)
    ensures
        text_le(a, b) || text_le(b, a),
    decreases a.len(),
{
    if a.len() > 0 && b.len() > 0 && a[0] == b[0] {
        lemma_text_le_total(a.drop_first(), b.drop_first());
    }
}

/// The order of texts is a total order.
pub proof fn lemma_text_order_is_total()
    ensures
        total_ordering(|a: Seq<char>, b: Seq<char>| text_le(a, b)),
{
    let leq = |a: Seq<char>, b: Seq<char>| text_le(a, b);
    assert forall|a: Seq<char>| #[trigger] leq(a, a) by {
        lemma_text_le_reflexive(a);
    }
    assert forall|a: Seq<char>, b: Seq<char>| #[trigger] leq(a, b) && #[trigger] leq(b, a) implies a
        == b by {
        lemma_text_le_antisymmetric(a, b);
    }
    assert forall|a: Seq<char>, b: Seq<char>, c: Seq<char>| #[trigger]
        leq(a, b) && #[trigger] leq(b, c) implies leq(a, c) by {
        lemma_text_le_transitive(a, b, c);
    }
    assert forall|a: Seq<char>, b: Seq<char>| #[trigger] leq(a, b) || #[trigger] leq(b, a) by {
        lemma_text_le_total(a, b);
    }
}

/// A list of texts has one sorted copy and no other.
pub proof fn lemma_sorted_copy_is_unique(x: Seq<Seq<char>>, y: Seq<Seq<char>>, source: Seq<Seq<char>>)
    requires
        is_sorted_copy(x, source),
        is_sorted_copy(y, source),
    ensures
        x == y,
{
    let leq = |a: Seq<char>, b: Seq<char>| text_le(a, b);
    lemma_text_order_is_total();
    assert(sorted_by(x, leq));
    assert(sorted_by(y, leq));
    lemma_sorted_unique(x, y, leq);
}

/// The texts of `source` in ascending order.
pub open spec fn sorted_texts(source: Seq<Seq<char>>) -> Seq<Seq<char>> {
    choose|sorted: Seq<Seq<char>>| is_sorted_copy(sorted, source)
}

/// Every list of texts has a sorted copy, and `sorted_texts` is it: it holds
/// the texts of the list, each as often as the list does, in ascending
/// order.
pub proof fn lemma_sorted_texts_is_sorted(source: Seq<Seq<char>>)
    ensures
        is_sorted_copy(sorted_texts(source), source),
        sorted_texts(source).len() == source.len(),
{
    let leq = |a: Seq<char>, b: Seq<char>| text_le(a, b);
    lemma_text_order_is_total();
    source.lemma_sort_by_ensures(leq);
    let witness = source.sort_by(leq);
    assert(witness.to_multiset() =~= source.to_multiset());
    assert forall|i: int, j: int| 0 <= i < j < witness.len() implies text_le(
        witness[i],
        witness[j],
    ) by {
        assert(leq(witness[i], witness[j]));
    }
    assert(is_sorted_copy(witness, source));
    sorted_texts(source).to_multiset_ensures();
    source.to_multiset_ensures();
}

/// A sorted copy of a list is the list in ascending order.
pub proof fn lemma_sorted_copy_is_sorted_texts(sorted: Seq<Seq<char>>, source: Seq<Seq<char>>)
    requires
        is_sorted_copy(sorted, source),
    ensures
        sorted == sorted_texts(source),
{
    lemma_sorted_texts_is_sorted(source);
    lemma_sorted_copy_is_unique(sorted, sorted_texts(source), source);
}

/// `sort` of the standard library on a list of strings: the list comes back
/// in ascending order, with the strings it had. Strings are ordered
/// character by character, by code point.
#[verifier::external_body]
pub(crate) fn sort_texts(texts: &mut Vec<String>)
    ensures
        is_sorted_copy(texts_model(final(texts)@), texts_model(old(texts)@)),
{
    texts.sort();
}

/// The descriptions of a song's lyrics, in ascending order.
pub fn sorted_descriptions(song: &SongTags) -> (langs: Vec<String>)
    ensures
        texts_model(langs@) == sorted_texts(song@.descriptions()),
        is_sorted_copy(texts_model(langs@), song@.descriptions()),
        langs@.len() == song@.descriptions().len(),
{
    let mut langs: Vec<String> = Vec::new();
    match &song.lyric_frames {
        Some(frames) => {
            let mut i: usize = 0;
            while i < frames.len()
                invariant
                    i <= frames@.len(),
                    langs@.len() == i,
                    forall|k: int| 0 <= k < i ==> (#[trigger] langs@[k])@ == frames@[k]@.description,
                decreases frames@.len() - i,
            {
                langs.push(frames[i].description.clone());
                i += 1;
            }
            assert(texts_model(langs@) =~= song@.descriptions());
        },
        None => {
            assert(texts_model(langs@) =~= song@.descriptions());
        },
    }
    sort_texts(&mut langs);
    proof {
        lemma_sorted_copy_is_sorted_texts(texts_model(langs@), song@.descriptions());
        texts_model(langs@).to_multiset_ensures();
        song@.descriptions().to_multiset_ensures();
    }
    langs
}

} // verus!
