//! The feed assembler: builds the items and the document of each declared
//! format from the podcast description and the resolver's partition.

use crate::config::{is_format_token, Episode, EpisodeView, Podcast, PodcastView};
use crate::feed::{
    transcript_view, ChannelExtension, ChannelExtensionView, FeedDocument, FeedDocumentView,
    FeedEnclosure, FeedEnclosureView, FeedGuid, FeedGuidView, FeedImage, FeedImageView, FeedItem,
    FeedItemView, ItemExtension, ItemExtensionView, Namespace, NamespaceView, Transcript,
    TranscriptView,
};
use crate::resolver::{
    diagnostics_upto, episode_pick, file_tokens, group_picks, lemma_episode_pick,
    lemma_group_picks, resolve_formats, FormatDiagnostic, FormatGroup, FormatPartition, Pick,
};
use crate::text::{
    comma_joined, find_first, first_position, format_token, join_comma, lemma_first_position,
    lowercase, lowercase_of, media_url, media_url_of, optional_text, same_text, texts, token_of,
};
use vstd::prelude::*;

verus! {

/// The run was abandoned: the episode at `episode` goes into a feed and
/// declares a transcript whose extension names no known kind.
#[derive(Clone, Copy, Debug, PartialEq, Eq)]
pub struct TranscriptKindError {
    pub episode: usize,
}

/// What a run produces: one document per declared format, in declared
/// order, and the diagnostics of the files that were dropped.
#[derive(Debug, PartialEq, Eq)]
pub struct Generation {
    pub documents: Vec<FeedDocument>,
    pub diagnostics: Vec<FormatDiagnostic>,
}

/// The media type of an enclosure, by the lower-cased format token. A token
/// outside the table has the empty media type.
pub open spec fn mime_of(lowered: Seq<char>) -> Seq<char> {
    if lowered == "mp3"@ {
        "audio/mpeg"@
    } else if lowered == "m4a"@ {
        "audio/mp4"@
    } else if lowered == "flac"@ {
        "audio/flac"@
    } else {
        Seq::empty()
    }
}

/// The media type of a transcript, by the extension of its address as it is
/// written; `None` for an extension outside the table.
pub open spec fn transcript_kind_of(extension: Seq<char>) -> Option<Seq<char>> {
    if extension == "vtt"@ {
        Some("text/vtt"@)
    } else if extension == "srt"@ {
        Some("application/srt"@)
    } else if extension == "txt"@ {
        Some("text/plain"@)
    } else {
        None
    }
}

/// The transcript reference for an address whose kind is known.
pub open spec fn transcript_at(address: Seq<char>) -> Option<TranscriptView> {
    match transcript_kind_of(token_of(address)) {
        Some(kind) => Some(TranscriptView { url: address, kind }),
        None => None,
    }
}

/// The transcript reference that an episode's items carry.
pub open spec fn transcript_of(address: Option<Seq<char>>) -> Option<TranscriptView> {
    match address {
        Some(address) => transcript_at(address),
        None => None,
    }
}

/// Whether an episode's transcript declaration can be carried into a feed:
/// there is none, or its kind is known.
pub open spec fn transcript_usable(address: Option<Seq<char>>) -> bool {
    match address {
        Some(address) => transcript_kind_of(token_of(address)) is Some,
        None => true,
    }
}

/// Whether file `j` of an episode has a declared token.
pub open spec fn is_declared(formats: Seq<Seq<char>>, files: Seq<Seq<char>>, j: int) -> bool {
    0 <= j < files.len() && first_position(formats, token_of(files[j])) is Some
}

/// Whether an episode goes into at least one feed: one of its files has a
/// declared token.
pub open spec fn contributes(formats: Seq<Seq<char>>, files: Seq<Seq<char>>) -> bool {
    exists|j: int| is_declared(formats, files, j)
}

/// Whether episode `e` makes the run fail: it goes into a feed, and its
/// transcript cannot be carried.
pub open spec fn blocked_at(pod: PodcastView, e: int) -> bool {
    &&& 0 <= e < pod.episodes.len()
    &&& contributes(pod.formats, pod.episodes[e].files)
    &&& !transcript_usable(pod.episodes[e].transcript_url)
}

/// Whether `e` is the first episode that makes the run fail.
pub open spec fn is_first_blocked(pod: PodcastView, e: int) -> bool {
    &&& blocked_at(pod, e)
    &&& forall|i: int| 0 <= i < e ==> !blocked_at(pod, i)
}

/// The first episode that makes the run fail, if any does.
pub open spec fn first_blocked(pod: PodcastView) -> Option<int> {
    if exists|e: int| is_first_blocked(pod, e) {
        Some(choose|e: int| is_first_blocked(pod, e))
    } else {
        None
    }
}

/// The item of `episode` for its accepted `file` in the feed of `format`.
pub open spec fn item_model(
    pod: PodcastView,
    episode: EpisodeView,
    file: Seq<char>,
    format: Seq<char>,
) -> FeedItemView {
    let url = media_url_of(pod.hosting_base_url, file);
    FeedItemView {
        title: episode.title,
        description: episode.description,
        author: pod.author_email,
        pub_date: episode.publish_date,
        link: episode.url,
        enclosure: FeedEnclosureView {
            url,
            mime_type: mime_of(lowercase_of(format)),
            length: episode.length_bytes,
        },
        guid: FeedGuidView { value: url, permalink: true },
        extension: ItemExtensionView {
            author: pod.author,
            image: pod.logo.url,
            duration: episode.duration,
            explicit: pod.explicit,
            subtitle: episode.subtitle,
            keywords: comma_joined(episode.keywords),
        },
        transcript: transcript_of(episode.transcript_url),
    }
}

/// The item that `pick` stands for in the feed of `format`.
pub open spec fn item_of(pod: PodcastView, pick: Pick, format: Seq<char>) -> FeedItemView {
    let episode = pod.episodes[pick.episode as int];
    item_model(pod, episode, episode.files[pick.file as int], format)
}

/// The namespaces that every document declares, in prefix order. The last
/// is the one that transcript references are written in.
pub open spec fn feed_namespaces() -> Seq<NamespaceView> {
    seq![
        NamespaceView { prefix: "atom"@, uri: "http://www.w3.org/2005/Atom"@ },
        NamespaceView { prefix: "itunes"@, uri: "https://podcastindex.org/dtds/podcast-1.0.dtd"@ },
        NamespaceView { prefix: "podcast"@, uri: "https://podcastindex.org/namespace/1.0"@ },
    ]
}

/// The items of the declared format at `k`: one for each episode that has
/// a file of that format, in episode order.
pub open spec fn items_of(pod: PodcastView, k: int) -> Seq<FeedItemView> {
    group_picks(pod.formats, pod.episodes, k, pod.episodes.len() as int).map_values(
        |pick: Pick| item_of(pod, pick, pod.formats[k]),
    )
}

/// The document of the declared format at `k`, generated at time `stamp`.
pub open spec fn document_of(pod: PodcastView, k: int, stamp: Seq<char>) -> FeedDocumentView {
    FeedDocumentView {
        format: pod.formats[k],
        title: pod.title,
        link: pod.website,
        description: pod.description,
        language: pod.language,
        copyright: pod.copyright,
        managing_editor: pod.managing_editor,
        pub_date: stamp,
        last_build_date: stamp,
        generator: "pdfg-rs"@,
        image: FeedImageView { url: pod.logo.url, title: pod.title, link: pod.website },
        extension: ChannelExtensionView {
            author: pod.author,
            category: pod.category,
            image: pod.logo.url,
            explicit: pod.explicit,
            owner_name: pod.author,
            owner_email: pod.author_email,
            subtitle: pod.subtitle,
            summary: pod.description,
            keywords: comma_joined(pod.keywords),
        },
        namespaces: feed_namespaces(),
        items: items_of(pod, k),
    }
}

impl Generation {
    /// The format of the document at `k`.
    pub open spec fn format_at(&self, k: int) -> Seq<char> {
        self.documents@[k]@.format
    }

    /// Whether this is what a run over `pod` at time `stamp` produces.
    pub open spec fn is_generation_of(&self, pod: PodcastView, stamp: Seq<char>) -> bool {
        &&& self.documents@.len() == pod.formats.len()
        &&& forall|k: int|
            0 <= k < pod.formats.len() ==> (#[trigger] self.documents@[k])@ == document_of(
                pod,
                k,
                stamp,
            )
        &&& self.diagnostics@ == diagnostics_upto(
            pod.formats,
            pod.episodes,
            pod.episodes.len() as int,
        )
    }
}

/// A run yields exactly one document for each declared format, in declared
/// order, whether or not any episode has a file of that format; where no
/// format is declared twice, no two documents are for the same format.
pub proof fn law_one_document_per_format(pod: &Podcast, stamp: Seq<char>, generation: Generation)
    requires
        generation.is_generation_of(pod@, stamp),
    ensures
        generation.documents@.len() == pod@.formats.len(),
        forall|k: int|
            0 <= k < pod@.formats.len() ==> #[trigger] generation.format_at(k) == pod@.formats[k],
        pod@.formats.no_duplicates() ==> forall|a: int, b: int|
            0 <= a < b < generation.documents@.len() ==> #[trigger] generation.format_at(a)
                != #[trigger] generation.format_at(b),
{
    assert forall|k: int| 0 <= k < pod@.formats.len() implies #[trigger] generation.format_at(k)
        == pod@.formats[k] by {
        assert(generation.documents@[k]@ == document_of(pod@, k, stamp));
    }
}

/// The document of a format holds one item for each file that goes into
/// its feed, in the same order, and nothing else.
pub proof fn law_items_follow_picks(pod: &Podcast, k: int, stamp: Seq<char>)
    requires
        0 <= k < pod@.formats.len(),
    ensures
        document_of(pod@, k, stamp).items.len() == group_picks(
            pod@.formats,
            pod@.episodes,
            k,
            pod@.episodes.len() as int,
        ).len(),
        forall|i: int|
            0 <= i < document_of(pod@, k, stamp).items.len() ==> #[trigger] document_of(
                pod@,
                k,
                stamp,
            ).items[i] == item_of(
                pod@,
                group_picks(pod@.formats, pod@.episodes, k, pod@.episodes.len() as int)[i],
                pod@.formats[k],
            ),
{
}

/// An episode goes into a feed, in the sense of [`contributes`], exactly
/// when some declared format receives one of its files.
pub proof fn law_contributing_episode_feeds_a_format(pod: &Podcast, e: int)
    requires
        0 <= e < pod@.episodes.len(),
    ensures
        contributes(pod@.formats, pod@.episodes[e].files) <==> exists|k: int|
            0 <= k < pod@.formats.len() && (#[trigger] episode_pick(
                pod@.formats,
                pod@.episodes[e].files,
                k,
            )) is Some,
{
    let formats = pod@.formats;
    let files = pod@.episodes[e].files;
    if contributes(formats, files) {
        let j = choose|j: int| is_declared(formats, files, j);
        let token = token_of(files[j]);
        lemma_first_position(formats, token);
        let k = first_position(formats, token)->0;
        lemma_first_position(file_tokens(files), formats[k]);
        assert(file_tokens(files)[j] == formats[k]);
        assert(episode_pick(formats, files, k) is Some);
    }
    if exists|k: int|
        0 <= k < formats.len() && (#[trigger] episode_pick(formats, files, k)) is Some {
        let k = choose|k: int|
            0 <= k < formats.len() && (#[trigger] episode_pick(formats, files, k)) is Some;
        lemma_episode_pick(formats, files, k);
        assert(is_declared(formats, files, episode_pick(formats, files, k)->0));
    }
}

/// Where a declared format is a lowercase extension token, the media type
/// of its enclosures is looked up by the format as it is declared.
pub proof fn law_valid_format_is_looked_up_as_declared(format: Seq<char>)
    ensures
        is_format_token(format) ==> mime_of(lowercase_of(format)) == mime_of(format),
{
}

/// A position that is first among the blocked episodes is the one
/// `first_blocked` names.
pub proof fn lemma_first_blocked_is(pod: PodcastView, e: int)
    requires
        is_first_blocked(pod, e),
    ensures
        first_blocked(pod) == Some(e),
{
    let chosen = choose|i: int| is_first_blocked(pod, i);
    assert(is_first_blocked(pod, chosen));
    if chosen < e {
        assert(!blocked_at(pod, chosen));
    }
    if e < chosen {
        assert(!blocked_at(pod, e));
    }
}

/// Where no episode is blocked, none is first among the blocked.
proof fn lemma_none_blocked(pod: PodcastView)
    requires
        forall|i: int| 0 <= i < pod.episodes.len() ==> !blocked_at(pod, i),
    ensures
        first_blocked(pod) is None,
{
    assert forall|e: int| !is_first_blocked(pod, e) by {
        if 0 <= e < pod.episodes.len() {
            assert(!blocked_at(pod, e));
        }
    }
}

/// A blocked episode means that some episode is first among the blocked.
proof fn lemma_some_blocked(pod: PodcastView, e: int)
    requires
        blocked_at(pod, e),
    ensures
        first_blocked(pod) is Some,
    decreases e,
{
    if forall|i: int| 0 <= i < e ==> !blocked_at(pod, i) {
        assert(is_first_blocked(pod, e));
    } else {
        let i = choose|i: int| 0 <= i < e && blocked_at(pod, i);
        lemma_some_blocked(pod, i);
    }
}

/// Looks up the media type of an enclosure by the lower-cased format token.
pub fn mime_type_for(lowered: &str) -> (mime: String)
    ensures
        mime@ == mime_of(lowered@),
{
    if same_text(lowered, "mp3") {
        String::from_str("audio/mpeg")
    } else if same_text(lowered, "m4a") {
        String::from_str("audio/mp4")
    } else if same_text(lowered, "flac") {
        String::from_str("audio/flac")
    } else {
        String::new()
    }
}

/// The media type of the enclosure of a file with format token `token`: the
/// token is lower-cased, then looked up.
pub fn enclosure_mime(token: &str) -> (mime: String)
    ensures
        mime@ == mime_of(lowercase_of(token@)),
{
    let lowered = lowercase(token);
    mime_type_for(lowered.as_str())
}

/// Looks up the media type of a transcript by the extension of its address.
pub fn transcript_kind(extension: &str) -> (kind: Option<String>)
    ensures
        optional_text(kind) == transcript_kind_of(extension@),
{
    if same_text(extension, "vtt") {
        Some(String::from_str("text/vtt"))
    } else if same_text(extension, "srt") {
        Some(String::from_str("application/srt"))
    } else if same_text(extension, "txt") {
        Some(String::from_str("text/plain"))
    } else {
        None
    }
}

/// Builds the transcript reference for `address`, where the extension of
/// the address names a known kind.
pub fn transcript_reference(address: &str) -> (transcript: Option<Transcript>)
    ensures
        transcript_view(transcript) == transcript_at(address@),
{
    let extension = format_token(address);
    match transcript_kind(extension.as_str()) {
        Some(kind) => Some(Transcript { url: String::from_str(address), kind }),
        None => None,
    }
}

/// Builds the item of `episode` for its accepted `file` in the feed of
/// `format`. There is no item where the episode declares a transcript of
/// unknown kind.
pub fn build_item(pod: &Podcast, episode: &Episode, file: &str, format: &str) -> (item: Option<
    FeedItem,
>)
    ensures
        match item {
            Some(item) => {
                &&& transcript_usable(episode@.transcript_url)
                &&& item@ == item_model(pod@, episode@, file@, format@)
            },
            None => !transcript_usable(episode@.transcript_url),
        },
{
    let transcript = match &episode.transcript_url {
        Some(address) => {
            let reference = transcript_reference(address.as_str());
            if reference.is_none() {
                return None;
            }
            reference
        },
        None => None,
    };
    let url = media_url(pod.hosting_base_url.as_str(), file);
    let enclosure = FeedEnclosure {
        url: url.clone(),
        mime_type: enclosure_mime(format),
        length: episode.length_bytes,
    };
    let guid = FeedGuid { value: url, permalink: true };
    let extension = ItemExtension {
        author: pod.author.clone(),
        image: pod.logo.url.clone(),
        duration: episode.duration.clone(),
        explicit: pod.explicit,
        subtitle: episode.subtitle.clone(),
        keywords: join_comma(&episode.keywords),
    };
    Some(
        FeedItem {
            title: episode.title.clone(),
            description: episode.description.clone(),
            author: pod.author_email.clone(),
            pub_date: episode.publish_date.clone(),
            link: episode.url.clone(),
            enclosure,
            guid,
            extension,
            transcript,
        },
    )
}

/// Decides whether `episode` goes into at least one feed.
pub fn episode_contributes(formats: &Vec<String>, episode: &Episode) -> (found: bool)
    ensures
        found == contributes(texts(formats@), episode@.files),
{
    let ghost declared = texts(formats@);
    let ghost files = episode@.files;
    let mut j: usize = 0;
    while j < episode.files.len()
        invariant
            0 <= j <= episode.files.len(),
            declared == texts(formats@),
            files == episode@.files,
            files.len() == episode.files@.len(),
            forall|i: int| 0 <= i < j ==> !is_declared(declared, files, i),
        decreases episode.files.len() - j,
    {
        let token = format_token(episode.files[j].as_str());
        proof {
            assert(files[j as int] == episode.files@[j as int]@);
        }
        if find_first(formats, token.as_str()).is_some() {
            proof {
                assert(is_declared(declared, files, j as int));
            }
            return true;
        }
        j = j + 1;
    }
    false
}

/// Finds the first episode that makes the run fail: one that goes into a
/// feed and declares a transcript of unknown kind.
pub fn first_unusable_transcript(pod: &Podcast) -> (found: Option<usize>)
    ensures
        match found {
            Some(e) => first_blocked(pod@) == Some(e as int),
            None => first_blocked(pod@) is None,
        },
{
    let mut e: usize = 0;
    while e < pod.episodes.len()
        invariant
            0 <= e <= pod.episodes.len(),
            pod@.episodes.len() == pod.episodes@.len(),
            forall|i: int| 0 <= i < e ==> !blocked_at(pod@, i),
        decreases pod.episodes.len() - e,
    {
        let episode = &pod.episodes[e];
        proof {
            assert(pod@.episodes[e as int] == episode@);
        }
        let usable = match &episode.transcript_url {
            Some(address) => {
                let extension = format_token(address.as_str());
                transcript_kind(extension.as_str()).is_some()
            },
            None => true,
        };
        if !usable && episode_contributes(&pod.formats, episode) {
            proof {
                assert(blocked_at(pod@, e as int));
                lemma_first_blocked_is(pod@, e as int);
            }
            return Some(e);
        }
        e = e + 1;
    }
    proof {
        lemma_none_blocked(pod@);
    }
    None
}

/// Builds the items of one group, in the group's order.
fn items_of_group(pod: &Podcast, group: &FormatGroup, k: usize) -> (items: Vec<FeedItem>)
    requires
        k < pod@.formats.len(),
        first_blocked(pod@) is None,
        group.format@ == pod@.formats[k as int],
        group.picks@ == group_picks(
            pod@.formats,
            pod@.episodes,
            k as int,
            pod@.episodes.len() as int,
        ),
    ensures
        items@.map_values(|item: FeedItem| item@) == items_of(pod@, k as int),
{
    let ghost picks = group.picks@;
    let ghost format = pod@.formats[k as int];
    let mut items: Vec<FeedItem> = Vec::new();
    let mut i: usize = 0;
    proof {
        lemma_group_picks(pod, k as int, pod@.episodes.len() as int);
    }
    while i < group.picks.len()
        invariant
            0 <= i <= group.picks.len(),
            k < pod@.formats.len(),
            first_blocked(pod@) is None,
            picks == group.picks@,
            format == pod@.formats[k as int],
            group.format@ == format,
            pod@.episodes.len() == pod.episodes@.len(),
            forall|n: int|
                0 <= n < picks.len() ==> {
                    let pick = #[trigger] picks[n];
                    &&& pick.episode < pod@.episodes.len()
                    &&& pick.file < pod@.episodes[pick.episode as int].files.len()
                    &&& episode_pick(
                        pod@.formats,
                        pod@.episodes[pick.episode as int].files,
                        k as int,
                    ) == Some(pick.file as int)
                },
            items@.len() == i,
            forall|n: int|
                0 <= n < i ==> (#[trigger] items@[n])@ == item_of(pod@, picks[n], format),
        decreases group.picks.len() - i,
    {
        let pick = group.picks[i];
        proof {
            assert(pick == picks[i as int]);
        }
        let episode = &pod.episodes[pick.episode];
        proof {
            assert(pod@.episodes[pick.episode as int] == episode@);
            assert(episode@.files.len() == episode.files@.len());
        }
        let file = episode.files[pick.file].as_str();
        proof {
            assert(file@ == episode@.files[pick.file as int]);
            lemma_episode_pick(pod@.formats, episode@.files, k as int);
            assert(is_declared(pod@.formats, episode@.files, pick.file as int));
            if !transcript_usable(episode@.transcript_url) {
                assert(blocked_at(pod@, pick.episode as int));
                lemma_some_blocked(pod@, pick.episode as int);
            }
        }
        match build_item(pod, episode, file, group.format.as_str()) {
            Some(item) => {
                items.push(item);
            },
            None => {
                assert(false);
            },
        }
        i = i + 1;
    }
    proof {
        assert(items@.map_values(|item: FeedItem| item@) =~= items_of(pod@, k as int));
    }
    items
}

/// The namespaces that every document declares, in prefix order.
fn namespaces() -> (list: Vec<Namespace>)
    ensures
        list@.map_values(|namespace: Namespace| namespace@) == feed_namespaces(),
{
    let mut list: Vec<Namespace> = Vec::new();
    list.push(
        Namespace {
            prefix: String::from_str("atom"),
            uri: String::from_str("http://www.w3.org/2005/Atom"),
        },
    );
    list.push(
        Namespace {
            prefix: String::from_str("itunes"),
            uri: String::from_str("https://podcastindex.org/dtds/podcast-1.0.dtd"),
        },
    );
    list.push(
        Namespace {
            prefix: String::from_str("podcast"),
            uri: String::from_str("https://podcastindex.org/namespace/1.0"),
        },
    );
    proof {
        assert(list@.map_values(|namespace: Namespace| namespace@) =~= feed_namespaces());
    }
    list
}

/// Builds the document of the declared format at `k` around its items.
fn build_document(pod: &Podcast, k: usize, stamp: &str, items: Vec<FeedItem>) -> (document:
    FeedDocument)
    requires
        k < pod@.formats.len(),
        items@.map_values(|item: FeedItem| item@) == items_of(pod@, k as int),
    ensures
        document@ == document_of(pod@, k as int, stamp@),
{
    proof {
        assert(pod@.formats.len() == pod.formats@.len());
    }
    FeedDocument {
        format: pod.formats[k].clone(),
        title: pod.title.clone(),
        link: pod.website.clone(),
        description: pod.description.clone(),
        language: pod.language.clone(),
        copyright: pod.copyright.clone(),
        managing_editor: pod.managing_editor.clone(),
        pub_date: String::from_str(stamp),
        last_build_date: String::from_str(stamp),
        generator: String::from_str("pdfg-rs"),
        image: FeedImage {
            url: pod.logo.url.clone(),
            title: pod.title.clone(),
            link: pod.website.clone(),
        },
        extension: ChannelExtension {
            author: pod.author.clone(),
            category: pod.category.clone(),
            image: pod.logo.url.clone(),
            explicit: pod.explicit,
            owner_name: pod.author.clone(),
            owner_email: pod.author_email.clone(),
            subtitle: pod.subtitle.clone(),
            summary: pod.description.clone(),
            keywords: join_comma(&pod.keywords),
        },
        namespaces: namespaces(),
        items,
    }
}

/// Generates the feeds of `pod` as of the generation time `stamp`: one
/// document for each declared format, in declared order, also where a
/// format has no item, and a diagnostic for each dropped file. The run fails
/// as a whole, with the first offending episode, where an episode that goes
/// into a feed declares a transcript of unknown kind.
pub fn generate_xmls_at(pod: &Podcast, stamp: &str) -> (outcome: Result<
    Generation,
    TranscriptKindError,
>)
    ensures
        match outcome {
            Ok(generation) => {
                &&& first_blocked(pod@) is None
                &&& generation.is_generation_of(pod@, stamp@)
                &&& generation.documents@.len() == pod.formats@.len()
                &&& forall|k: int|
                    0 <= k < pod.formats@.len() ==> (#[trigger] generation.documents@[k]).format@
                        == pod.formats@[k]@
            },
            Err(error) => first_blocked(pod@) == Some(error.episode as int),
        },
{
    match first_unusable_transcript(pod) {
        Some(episode) => {
            return Err(TranscriptKindError { episode });
        },
        None => {},
    }
    let FormatPartition { groups, diagnostics } = resolve_formats(pod);
    let mut documents: Vec<FeedDocument> = Vec::new();
    let mut k: usize = 0;
    while k < groups.len()
        invariant
            0 <= k <= groups.len(),
            first_blocked(pod@) is None,
            groups@.len() == pod@.formats.len(),
            pod@.formats.len() == pod.formats@.len(),
            forall|g: int|
                0 <= g < pod@.formats.len() ==> {
                    &&& (#[trigger] groups@[g]).format@ == pod@.formats[g]
                    &&& groups@[g].picks@ == group_picks(
                        pod@.formats,
                        pod@.episodes,
                        g,
                        pod@.episodes.len() as int,
                    )
                },
            documents@.len() == k,
            forall|g: int|
                0 <= g < k ==> (#[trigger] documents@[g])@ == document_of(pod@, g, stamp@),
        decreases groups.len() - k,
    {
        let items = items_of_group(pod, &groups[k], k);
        documents.push(build_document(pod, k, stamp, items));
        k = k + 1;
    }
    proof {
        assert forall|g: int| 0 <= g < pod.formats@.len() implies (#[trigger] documents@[g]).format@
            == pod.formats@[g]@ by {
            assert(documents@[g]@ == document_of(pod@, g, stamp@));
        }
    }
    Ok(Generation { documents, diagnostics })
}

} // verus!
