//! What to do with the tag of a downloaded file.
//!
//! A file always leaves with a tag: one that can be read is written back as
//! it is, in the newest format; a file without one gets a fresh tag that
//! carries the file's base name as its title.

use crate::paths::{path_stem, stem_of};
use vstd::prelude::*;

verus! {

/// The formats in which a tag can be written, oldest first.
#[derive(Debug, Clone, Copy, PartialEq, Eq)]
pub enum TagVersion {
    Id3v22,
    Id3v23,
    Id3v24,
}

/// One step on the tag of a file.
#[derive(Debug, Clone, PartialEq, Eq)]
pub enum TagStep {
    /// Start from an empty tag, titled where a title is given.
    Create { title: Option<String> },
    /// Write the tag at hand into the file, in the format given. A failure to
    /// write is passed over: the audio is delivered all the same.
    Persist(TagVersion),
}

/// What a step on a tag holds.
pub enum TagStepModel {
    Create { title: Option<Seq<char>> },
    Persist(TagVersion),
}

impl View for TagStep {
    type V = TagStepModel;

    open spec fn view(&self) -> TagStepModel {
        match *self {
            TagStep::Create { title } => TagStepModel::Create {
                title: match title {
                    Some(t) => Some(t@),
                    None => None,
                },
            },
            TagStep::Persist(version) => TagStepModel::Persist(version),
        }
    }
}

/// What a list of steps holds.
pub open spec fn tag_steps_model(steps: Seq<TagStep>) -> Seq<TagStepModel> {
    steps.map_values(|s: TagStep| s@)
}

/// The steps for a file: with a tag that was read, one write; without, a
/// fresh tag titled by `stem`, written at once, and the same write after it.
/// Every write is in the newest format.
pub open spec fn tag_plan(readable: bool, stem: Option<Seq<char>>) -> Seq<TagStepModel> {
    if readable {
        seq![TagStepModel::Persist(TagVersion::Id3v24)]
    } else {
        seq![
            TagStepModel::Create { title: stem },
            TagStepModel::Persist(TagVersion::Id3v24),
            TagStepModel::Persist(TagVersion::Id3v24),
        ]
    }
}

/// The steps for a file whose tag was read (`readable`) or could not be, and
/// whose base name without extension is `stem`.
pub fn tag_steps(readable: bool, stem: Option<String>) -> (steps: Vec<TagStep>)
    ensures
        tag_steps_model(steps@) == tag_plan(
            readable,
            match stem {
                Some(t) => Some(t@),
                None => None,
            },
        ),
{
    let steps = if readable {
        vec![TagStep::Persist(TagVersion::Id3v24)]
    } else {
        vec![
            TagStep::Create { title: stem },
            TagStep::Persist(TagVersion::Id3v24),
            TagStep::Persist(TagVersion::Id3v24),
        ]
    };
    assert(tag_steps_model(steps@) =~= tag_plan(
        readable,
        match stem {
            Some(t) => Some(t@),
            None => None,
        },
    ));
    steps
}

/// The steps for the file at `path`. The title of a fresh tag is the base
/// name that the standard library finds in `path`, without its extension.
pub fn plan_tagging(path: &str, readable: bool) -> (steps: Vec<TagStep>)
    ensures
        tag_steps_model(steps@) == tag_plan(
            readable,
            if readable {
                None
            } else {
                path_stem(path@)
            },
        ),
{
    if readable {
        tag_steps(true, None)
    } else {
        tag_steps(false, stem_of(path))
    }
}

} // verus!
