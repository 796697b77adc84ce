//! The whole run: from a podcast description to the feeds as of now, and
//! from the feeds to the files that hold them.

use crate::assembler::{
    first_blocked, first_unusable_transcript, generate_xmls_at, Generation, TranscriptKindError,
};
use crate::clock::{is_stamp, stamp_now};
use crate::config::{Podcast, PodcastView};
use crate::feed::FeedDocument;
use crate::markup::{is_outcome, MarkupError};
use crate::render::{serialize, serialized};
use vstd::prelude::*;

verus! {

/// Why a run produced no feeds.
#[derive(Clone, Copy, Debug, PartialEq, Eq)]
pub enum GenerationError {
    /// An episode that goes into a feed declares a transcript of unknown
    /// kind.
    TranscriptKind(TranscriptKindError),
    /// The system clock stands outside the years that a feed date can name.
    ClockOutOfRange,
}

/// A feed as it goes to disk: the name of its file, and its canonical
/// markup or the error that kept the document from being serialised.
#[derive(Debug, PartialEq, Eq)]
pub struct FeedFile {
    pub name: String,
    pub content: Result<String, MarkupError>,
}

/// Whether `generation` is what a run over `pod` produces at some moment
/// that has a generation stamp.
pub open spec fn is_generation_at_some_time(generation: Generation, pod: PodcastView) -> bool {
    exists|stamp: Seq<char>| is_stamp(stamp) && #[trigger] generation.is_generation_of(pod, stamp)
}

/// The name of the file that holds the feed of `format`.
pub open spec fn feed_file_name_of(format: Seq<char>) -> Seq<char> {
    "podcast-feed-"@ + format + ".xml"@
}

/// Names the file that holds the feed of `format`.
pub fn feed_file_name(format: &str) -> (name: String)
    ensures
        name@ == feed_file_name_of(format@),
{
    let mut name = String::from_str("podcast-feed-");
    name.append(format);
    name.append(".xml");
    name
}

/// Serialises every document, each for its own file. A document that
/// cannot be serialised keeps its place, with the error in place of the
/// markup; the documents after it are serialised all the same.
pub fn serialize_feeds(documents: &Vec<FeedDocument>) -> (files: Vec<FeedFile>)
    ensures
        files@.len() == documents@.len(),
        forall|k: int|
            0 <= k < documents@.len() ==> {
                &&& (#[trigger] files@[k]).name@ == feed_file_name_of(documents@[k].format@)
                &&& is_outcome(files@[k].content, serialized(documents@[k]@))
            },
{
    let mut files: Vec<FeedFile> = Vec::new();
    let mut k: usize = 0;
    while k < documents.len()
        invariant
            0 <= k <= documents.len(),
            files@.len() == k,
            forall|i: int|
                0 <= i < k ==> {
                    &&& (#[trigger] files@[i]).name@ == feed_file_name_of(documents@[i].format@)
                    &&& is_outcome(files@[i].content, serialized(documents@[i]@))
                },
        decreases documents.len() - k,
    {
        let document = &documents[k];
        files.push(
            FeedFile {
                name: feed_file_name(document.format.as_str()),
                content: serialize(document),
            },
        );
        k = k + 1;
    }
    files
}

/// Generates the feeds of `pod` as of now. The transcripts are checked
/// before the clock is read, so an offending episode is reported whatever
/// the clock says. Otherwise the run gives what [`generate_xmls_at`] gives
/// for the stamp of the clock's reading, or fails where that reading has no
/// stamp.
pub fn generate_xmls(pod: &Podcast) -> (outcome: Result<Generation, GenerationError>)
    ensures
        match outcome {
            Ok(generation) => {
                &&& first_blocked(pod@) is None
                &&& is_generation_at_some_time(generation, pod@)
            },
            Err(GenerationError::TranscriptKind(error)) => first_blocked(pod@) == Some(
                error.episode as int,
            ),
            Err(GenerationError::ClockOutOfRange) => first_blocked(pod@) is None,
        },
{
    match first_unusable_transcript(pod) {
        Some(episode) => {
            return Err(GenerationError::TranscriptKind(TranscriptKindError { episode }));
        },
        None => {},
    }
    let stamp = match stamp_now() {
        Some(stamp) => stamp,
        None => {
            return Err(GenerationError::ClockOutOfRange);
        },
    };
    match generate_xmls_at(pod, stamp.as_str()) {
        Ok(generation) => {
            proof {
                assert(is_stamp(stamp@));
                assert(generation.is_generation_of(pod@, stamp@));
                assert(is_generation_at_some_time(generation, pod@));
            }
            return Ok(generation);
        },
        Err(error) => {
            return Err(GenerationError::TranscriptKind(error));
        },
    }
}

} // verus!
