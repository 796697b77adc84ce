//! The podcast description: show metadata, declared formats and episodes,
//! with the rule that the declared formats must obey.

use crate::text::{
    find_first, first_position, format_token, lemma_first_position, lowercase, lowercase_of,
    optional_text, same_text, texts, token_of,
};
use vstd::prelude::*;

verus! {

/// The show's logo.
#[derive(Debug, PartialEq, Eq)]
pub struct Logo {
    pub url: String,
    pub title: String,
    pub link: String,
}

/// One episode and the media files that carry it, relative to the hosting
/// base address.
#[derive(Debug, PartialEq, Eq)]
pub struct Episode {
    pub title: String,
    pub url: String,
    pub description: String,
    pub subtitle: String,
    pub files: Vec<String>,
    pub duration: String,
    pub publish_date: String,
    pub keywords: Vec<String>,
    pub length_bytes: usize,
    pub transcript_url: Option<String>,
}

/// A whole show: its identity, its declared formats and its episodes.
#[derive(Debug, PartialEq, Eq)]
pub struct Podcast {
    pub title: String,
    pub description: String,
    pub subtitle: String,
    pub author: String,
    pub author_email: String,
    pub website: String,
    pub language: String,
    pub copyright: String,
    pub webmaster: String,
    pub managing_editor: String,
    pub formats: Vec<String>,
    pub hosting_base_url: String,
    pub keywords: Vec<String>,
    pub explicit: bool,
    pub logo: Logo,
    pub category: String,
    pub episodes: Vec<Episode>,
}

/// Mathematical model of a [`Logo`].
pub struct LogoView {
    pub url: Seq<char>,
    pub title: Seq<char>,
    pub link: Seq<char>,
}

/// Mathematical model of an [`Episode`].
pub struct EpisodeView {
    pub title: Seq<char>,
    pub url: Seq<char>,
    pub description: Seq<char>,
    pub subtitle: Seq<char>,
    pub files: Seq<Seq<char>>,
    pub duration: Seq<char>,
    pub publish_date: Seq<char>,
    pub keywords: Seq<Seq<char>>,
    pub length_bytes: nat,
    pub transcript_url: Option<Seq<char>>,
}

/// Mathematical model of a [`Podcast`].
pub struct PodcastView {
    pub title: Seq<char>,
    pub description: Seq<char>,
    pub subtitle: Seq<char>,
    pub author: Seq<char>,
    pub author_email: Seq<char>,
    pub website: Seq<char>,
    pub language: Seq<char>,
    pub copyright: Seq<char>,
    pub webmaster: Seq<char>,
    pub managing_editor: Seq<char>,
    pub formats: Seq<Seq<char>>,
    pub hosting_base_url: Seq<char>,
    pub keywords: Seq<Seq<char>>,
    pub explicit: bool,
    pub logo: LogoView,
    pub category: Seq<char>,
    pub episodes: Seq<EpisodeView>,
}

impl View for Logo {
    type V = LogoView;

    open spec fn view(&self) -> LogoView {
        LogoView { url: self.url@, title: self.title@, link: self.link@ }
    }
}

impl View for Episode {
    type V = EpisodeView;

    open spec fn view(&self) -> EpisodeView {
        EpisodeView {
            title: self.title@,
            url: self.url@,
            description: self.description@,
            subtitle: self.subtitle@,
            files: texts(self.files@),
            duration: self.duration@,
            publish_date: self.publish_date@,
            keywords: texts(self.keywords@),
            length_bytes: self.length_bytes as nat,
            transcript_url: optional_text(self.transcript_url),
        }
    }
}

impl View for Podcast {
    type V = PodcastView;

    open spec fn view(&self) -> PodcastView {
        PodcastView {
            title: self.title@,
            description: self.description@,
            subtitle: self.subtitle@,
            author: self.author@,
            author_email: self.author_email@,
            website: self.website@,
            language: self.language@,
            copyright: self.copyright@,
            webmaster: self.webmaster@,
            managing_editor: self.managing_editor@,
            formats: texts(self.formats@),
            hosting_base_url: self.hosting_base_url@,
            keywords: texts(self.keywords@),
            explicit: self.explicit,
            logo: self.logo@,
            category: self.category@,
            episodes: self.episodes@.map_values(|episode: Episode| episode@),
        }
    }
}

/// Why a description is refused.
#[derive(Clone, Copy, Debug, PartialEq, Eq)]
pub enum ConfigError {
    /// No format is declared.
    NoFormats,
    /// The declared format at `index` is not a lowercase extension token.
    NotAFormatToken { index: usize },
    /// The declared format at `index` repeats an earlier one.
    DuplicateFormat { index: usize },
}

/// A lowercase file-extension token: not empty, free of dots (it is its own
/// format token), and unchanged by lower-casing.
pub open spec fn is_format_token(s: Seq<char>) -> bool {
    &&& s.len() > 0
    &&& token_of(s) == s
    &&& lowercase_of(s) == s
}

/// Whether the declared format at `i` is a token that no earlier entry holds.
pub open spec fn format_entry_ok(formats: Seq<Seq<char>>, i: int) -> bool {
    &&& is_format_token(formats[i])
    &&& first_position(formats, formats[i]) == Some(i)
}

impl PodcastView {
    /// The rule on declared formats: at least one, each a lowercase
    /// extension token, none twice.
    pub open spec fn wf(self) -> bool {
        &&& self.formats.len() > 0
        &&& forall|i: int|
            0 <= i < self.formats.len() ==> is_format_token(#[trigger] self.formats[i])
        &&& self.formats.no_duplicates()
    }
}

/// Checks whether `text` is a lowercase file-extension token.
pub fn check_format_token(text: &str) -> (ok: bool)
    ensures
        ok == is_format_token(text@),
{
    if text.unicode_len() == 0 {
        return false;
    }
    let token = format_token(text);
    if !same_text(token.as_str(), text) {
        return false;
    }
    let lowered = lowercase(text);
    same_text(lowered.as_str(), text)
}

impl Podcast {
    /// Checks the rule on declared formats, and names the first entry that
    /// breaks it.
    pub fn validate(&self) -> (outcome: Result<(), ConfigError>)
        ensures
            outcome is Ok <==> self@.wf(),
            outcome == Err::<(), ConfigError>(ConfigError::NoFormats) <==> self@.formats.len() == 0,
            match outcome {
                Err(ConfigError::NotAFormatToken { index }) => {
                    &&& index < self@.formats.len()
                    &&& !is_format_token(self@.formats[index as int])
                    &&& forall|i: int| 0 <= i < index ==> format_entry_ok(self@.formats, i)
                },
                Err(ConfigError::DuplicateFormat { index }) => {
                    &&& index < self@.formats.len()
                    &&& is_format_token(self@.formats[index as int])
                    &&& !format_entry_ok(self@.formats, index as int)
                    &&& forall|i: int| 0 <= i < index ==> format_entry_ok(self@.formats, i)
                },
                _ => true,
            },
    {
        if self.formats.len() == 0 {
            return Err(ConfigError::NoFormats);
        }
        let ghost formats = self@.formats;
        let mut i: usize = 0;
        while i < self.formats.len()
            invariant
                0 <= i <= self.formats.len(),
                formats == self@.formats,
                formats.len() == self.formats.len(),
                forall|k: int| 0 <= k < i ==> format_entry_ok(formats, k),
            decreases self.formats.len() - i,
        {
            let entry = self.formats[i].as_str();
            proof {
                lemma_first_position(formats, formats[i as int]);
            }
            if !check_format_token(entry) {
                assert(!is_format_token(self@.formats[i as int]));
                return Err(ConfigError::NotAFormatToken { index: i });
            }
            match find_first(&self.formats, entry) {
                Some(first) => {
                    if first != i {
                        assert(self@.formats[first as int] == self@.formats[i as int]);
                        return Err(ConfigError::DuplicateFormat { index: i });
                    }
                },
                None => {
                    return Err(ConfigError::DuplicateFormat { index: i });
                },
            }
            i = i + 1;
        }
        proof {
            assert forall|k: int| 0 <= k < formats.len() implies is_format_token(
                #[trigger] formats[k],
            ) by {
                assert(format_entry_ok(formats, k));
            }
            assert forall|a: int, b: int|
                0 <= a < formats.len() && 0 <= b < formats.len() && a != b implies formats[a]
                != formats[b] by {
                assert(format_entry_ok(formats, a));
                assert(format_entry_ok(formats, b));
                lemma_first_position(formats, formats[a]);
                lemma_first_position(formats, formats[b]);
            }
        }
        Ok(())
    }
}

} // verus!
