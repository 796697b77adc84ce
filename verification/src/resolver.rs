//! The format resolver: which media file of which episode goes into which
//! format's feed, and which files are dropped, and why.

use crate::config::{Episode, EpisodeView, Podcast, PodcastView};
use crate::text::{find_first, first_position, format_token, lemma_first_position, texts, token_of};
use vstd::prelude::*;

verus! {

/// An accepted media file: the position of its episode in the show and its
/// own position in that episode's file list.
#[derive(Clone, Copy, Debug, PartialEq, Eq)]
pub struct Pick {
    pub episode: usize,
    pub file: usize,
}

/// Why a media file was left out.
#[derive(Clone, Copy, Debug, PartialEq, Eq)]
pub enum DropReason {
    /// The file's token is not among the declared formats.
    UnsupportedFormat,
    /// An earlier file of the same episode already has the file's token.
    DuplicateFormat,
}

/// A dropped media file and the reason; the run goes on after it.
#[derive(Clone, Copy, Debug, PartialEq, Eq)]
pub struct FormatDiagnostic {
    pub reason: DropReason,
    pub episode: usize,
    pub file: usize,
}

/// The accepted files of one declared format, in episode order.
#[derive(Debug, PartialEq, Eq)]
pub struct FormatGroup {
    pub format: String,
    pub picks: Vec<Pick>,
}

/// What the resolver found: one group per declared format, in declared
/// order, and the diagnostics in the order the files were met.
#[derive(Debug, PartialEq, Eq)]
pub struct FormatPartition {
    pub groups: Vec<FormatGroup>,
    pub diagnostics: Vec<FormatDiagnostic>,
}

/// What becomes of one file of an episode.
pub enum Verdict {
    /// Accepted into the feed of the declared format at `format`.
    Accepted { format: int },
    /// Dropped: an earlier file of the episode has the same token.
    Duplicate,
    /// Dropped: the token is not declared.
    Unsupported,
}

/// The format tokens of a file list, in file order.
pub open spec fn file_tokens(files: Seq<Seq<char>>) -> Seq<Seq<char>> {
    files.map_values(|file: Seq<char>| token_of(file))
}

/// The fate of file `j` of an episode. Tokens are compared exactly as they
/// are written. Of the files that share a declared token, the earliest wins.
pub open spec fn verdict(formats: Seq<Seq<char>>, files: Seq<Seq<char>>, j: int) -> Verdict {
    let token = token_of(files[j]);
    match first_position(formats, token) {
        None => Verdict::Unsupported,
        Some(k) => if first_position(file_tokens(files), token) == Some(j) {
            Verdict::Accepted { format: k }
        } else {
            Verdict::Duplicate
        },
    }
}

/// The file that an episode contributes to the declared format at `k`: its
/// first file with that token. A format entry that repeats an earlier entry
/// receives nothing.
pub open spec fn episode_pick(formats: Seq<Seq<char>>, files: Seq<Seq<char>>, k: int) -> Option<
    int,
> {
    if first_position(formats, formats[k]) == Some(k) {
        first_position(file_tokens(files), formats[k])
    } else {
        None
    }
}

/// The picks of the declared format at `k` among the first `n` episodes.
pub open spec fn group_picks(
    formats: Seq<Seq<char>>,
    episodes: Seq<EpisodeView>,
    k: int,
    n: int,
) -> Seq<Pick>
    decreases n,
{
    if n <= 0 {
        Seq::empty()
    } else {
        let earlier = group_picks(formats, episodes, k, n - 1);
        match episode_pick(formats, episodes[n - 1].files, k) {
            Some(j) => earlier.push(Pick { episode: (n - 1) as usize, file: j as usize }),
            None => earlier,
        }
    }
}

/// The diagnostic that the resolver's verdict on file `j` of episode `e`
/// calls for, if it calls for one.
pub open spec fn diagnostic_for(
    formats: Seq<Seq<char>>,
    files: Seq<Seq<char>>,
    e: int,
    j: int,
) -> Option<FormatDiagnostic> {
    match verdict(formats, files, j) {
        Verdict::Accepted { .. } => None,
        Verdict::Duplicate => Some(
            FormatDiagnostic {
                reason: DropReason::DuplicateFormat,
                episode: e as usize,
                file: j as usize,
            },
        ),
        Verdict::Unsupported => Some(
            FormatDiagnostic {
                reason: DropReason::UnsupportedFormat,
                episode: e as usize,
                file: j as usize,
            },
        ),
    }
}

/// The diagnostics for the first `n` files of episode `e`, in file order.
pub open spec fn episode_diagnostics(
    formats: Seq<Seq<char>>,
    files: Seq<Seq<char>>,
    e: int,
    n: int,
) -> Seq<FormatDiagnostic>
    decreases n,
{
    if n <= 0 {
        Seq::empty()
    } else {
        let earlier = episode_diagnostics(formats, files, e, n - 1);
        match diagnostic_for(formats, files, e, n - 1) {
            Some(entry) => earlier.push(entry),
            None => earlier,
        }
    }
}

/// The diagnostics for the first `n` episodes, each episode's in file order.
pub open spec fn diagnostics_upto(
    formats: Seq<Seq<char>>,
    episodes: Seq<EpisodeView>,
    n: int,
) -> Seq<FormatDiagnostic>
    decreases n,
{
    if n <= 0 {
        Seq::empty()
    } else {
        diagnostics_upto(formats, episodes, n - 1) + episode_diagnostics(
            formats,
            episodes[n - 1].files,
            n - 1,
            episodes[n - 1].files.len() as int,
        )
    }
}

impl FormatPartition {
    /// Whether this is the partition of `pod`: a group for each declared
    /// format, in declared order, holding exactly that format's picks, and
    /// a diagnostic for each dropped file, in episode and file order.
    pub open spec fn is_partition_of(&self, pod: PodcastView) -> bool {
        &&& self.groups@.len() == pod.formats.len()
        &&& forall|k: int|
            0 <= k < pod.formats.len() ==> {
                &&& (#[trigger] self.groups@[k]).format@ == pod.formats[k]
                &&& self.groups@[k].picks@ == group_picks(
                    pod.formats,
                    pod.episodes,
                    k,
                    pod.episodes.len() as int,
                )
            }
        &&& self.diagnostics@ == diagnostics_upto(
            pod.formats,
            pod.episodes,
            pod.episodes.len() as int,
        )
    }
}

/// What an episode contributes to a format is one of its files, and that
/// file's token is the format, exactly.
pub proof fn lemma_episode_pick(formats: Seq<Seq<char>>, files: Seq<Seq<char>>, k: int)
    requires
        0 <= k < formats.len(),
    ensures
        match episode_pick(formats, files, k) {
            Some(j) => {
                &&& 0 <= j < files.len()
                &&& token_of(files[j]) == formats[k]
                &&& first_position(formats, token_of(files[j])) == Some(k)
                &&& verdict(formats, files, j) == (Verdict::Accepted { format: k })
            },
            None => true,
        },
{
    lemma_first_position(file_tokens(files), formats[k]);
}

/// Every pick of a group names an episode below `n` and the file that this
/// episode contributes to the format; the picks come in episode order, at
/// most one for each episode.
pub proof fn lemma_group_picks(pod: &Podcast, k: int, n: int)
    requires
        0 <= k < pod@.formats.len(),
        0 <= n <= pod@.episodes.len(),
    ensures
        forall|i: int|
            0 <= i < group_picks(pod@.formats, pod@.episodes, k, n).len() ==> {
                let pick = #[trigger] group_picks(pod@.formats, pod@.episodes, k, n)[i];
                &&& pick.episode < n
                &&& pick.file < pod@.episodes[pick.episode as int].files.len()
                &&& episode_pick(pod@.formats, pod@.episodes[pick.episode as int].files, k)
                    == Some(pick.file as int)
            },
        forall|i: int, j: int|
            0 <= i < j < group_picks(pod@.formats, pod@.episodes, k, n).len() ==> group_picks(
                pod@.formats,
                pod@.episodes,
                k,
                n,
            )[i].episode < group_picks(pod@.formats, pod@.episodes, k, n)[j].episode,
    decreases n,
{
    if n > 0 {
        lemma_group_picks(pod, k, n - 1);
        let files = pod@.episodes[n - 1].files;
        lemma_episode_pick(pod@.formats, files, k);
        assert(pod.episodes@.len() == pod.episodes.len());
        assert(files.len() == pod.episodes@[n - 1].files.len());
    }
}

/// Whether the file at `pick` goes into the feed of the declared format at
/// `k`.
pub open spec fn feeds_file(pod: PodcastView, k: int, pick: Pick) -> bool {
    group_picks(pod.formats, pod.episodes, k, pod.episodes.len() as int).contains(pick)
}

/// The picks of a group among the first `n` episodes are exactly the
/// contributions of those episodes to the format.
pub proof fn lemma_group_membership(pod: &Podcast, k: int, n: int, pick: Pick)
    requires
        0 <= k < pod@.formats.len(),
        0 <= n <= pod@.episodes.len(),
    ensures
        group_picks(pod@.formats, pod@.episodes, k, n).contains(pick) <==> {
            &&& pick.episode < n
            &&& episode_pick(pod@.formats, pod@.episodes[pick.episode as int].files, k) == Some(
                pick.file as int,
            )
        },
    decreases n,
{
    let picks = group_picks(pod@.formats, pod@.episodes, k, n);
    lemma_group_picks(pod, k, n);
    if n > 0 {
        lemma_group_membership(pod, k, n - 1, pick);
        let earlier = group_picks(pod@.formats, pod@.episodes, k, n - 1);
        let files = pod@.episodes[n - 1].files;
        lemma_episode_pick(pod@.formats, files, k);
        assert(pod.episodes@.len() == pod.episodes.len());
        assert(files.len() == pod.episodes@[n - 1].files.len());
        match episode_pick(pod@.formats, files, k) {
            Some(j) => {
                let last = Pick { episode: (n - 1) as usize, file: j as usize };
                assert(picks == earlier.push(last));
                assert(picks[earlier.len() as int] == last);
                if earlier.contains(pick) {
                    let i = choose|i: int| 0 <= i < earlier.len() && earlier[i] == pick;
                    assert(picks[i] == pick);
                }
            },
            None => {},
        }
    }
    if picks.contains(pick) {
        let i = choose|i: int| 0 <= i < picks.len() && picks[i] == pick;
        assert(picks[i] == pick);
    }
}

/// A file goes into the feed of a format exactly when the resolver's
/// verdict on it is that it is accepted for that format.
pub proof fn law_feed_holds_accepted_files(pod: &Podcast, k: int, pick: Pick)
    requires
        0 <= k < pod@.formats.len(),
        pick.episode < pod@.episodes.len(),
        pick.file < pod@.episodes[pick.episode as int].files.len(),
    ensures
        feeds_file(pod@, k, pick) <==> verdict(
            pod@.formats,
            pod@.episodes[pick.episode as int].files,
            pick.file as int,
        ) == (Verdict::Accepted { format: k }),
{
    let files = pod@.episodes[pick.episode as int].files;
    lemma_group_membership(pod, k, pod@.episodes.len() as int, pick);
    lemma_episode_pick(pod@.formats, files, k);
    lemma_first_position(pod@.formats, token_of(files[pick.file as int]));
}

/// A file goes into at most one feed, and into that of a format only if its
/// token is that format, character for character.
pub proof fn law_file_in_at_most_one_feed(pod: &Podcast, k: int, other: int, pick: Pick)
    requires
        0 <= k < pod@.formats.len(),
        0 <= other < pod@.formats.len(),
        feeds_file(pod@, k, pick),
    ensures
        pick.episode < pod@.episodes.len(),
        pick.file < pod@.episodes[pick.episode as int].files.len(),
        token_of(pod@.episodes[pick.episode as int].files[pick.file as int]) == pod@.formats[k],
        feeds_file(pod@, other, pick) ==> other == k,
{
    let n = pod@.episodes.len() as int;
    lemma_group_membership(pod, k, n, pick);
    lemma_group_membership(pod, other, n, pick);
    let files = pod@.episodes[pick.episode as int].files;
    lemma_episode_pick(pod@.formats, files, k);
    lemma_episode_pick(pod@.formats, files, other);
}

/// An episode has at most one file in the feed of a format: the first of its
/// files that has the format's token.
pub proof fn law_first_file_wins(pod: &Podcast, k: int, pick: Pick, later: Pick)
    requires
        0 <= k < pod@.formats.len(),
        feeds_file(pod@, k, pick),
        feeds_file(pod@, k, later),
        pick.episode == later.episode,
    ensures
        pick == later,
        forall|j: int|
            0 <= j < pick.file ==> token_of(
                #[trigger] pod@.episodes[pick.episode as int].files[j],
            ) != pod@.formats[k],
{
    let n = pod@.episodes.len() as int;
    lemma_group_membership(pod, k, n, pick);
    lemma_group_membership(pod, k, n, later);
    let files = pod@.episodes[pick.episode as int].files;
    lemma_first_position(file_tokens(files), pod@.formats[k]);
    assert forall|j: int| 0 <= j < pick.file implies token_of(#[trigger] files[j])
        != pod@.formats[k] by {
        assert(file_tokens(files)[j] == token_of(files[j]));
    }
}

/// The diagnostics of the first `n` files of an episode are exactly those
/// that the verdicts on these files call for.
proof fn lemma_episode_diagnostics(
    formats: Seq<Seq<char>>,
    files: Seq<Seq<char>>,
    e: int,
    n: int,
    entry: FormatDiagnostic,
)
    requires
        0 <= e <= usize::MAX,
        0 <= n <= files.len() <= usize::MAX,
    ensures
        episode_diagnostics(formats, files, e, n).contains(entry) <==> {
            &&& entry.episode == e
            &&& entry.file < n
            &&& diagnostic_for(formats, files, e, entry.file as int) == Some(entry)
        },
    decreases n,
{
    let entries = episode_diagnostics(formats, files, e, n);
    if n > 0 {
        lemma_episode_diagnostics(formats, files, e, n - 1, entry);
        let earlier = episode_diagnostics(formats, files, e, n - 1);
        match diagnostic_for(formats, files, e, n - 1) {
            Some(last) => {
                assert(entries == earlier.push(last));
                assert(entries[earlier.len() as int] == last);
                if earlier.contains(entry) {
                    let i = choose|i: int| 0 <= i < earlier.len() && earlier[i] == entry;
                    assert(entries[i] == entry);
                }
            },
            None => {
                assert(entries == earlier);
            },
        }
    }
    if entries.contains(entry) {
        let i = choose|i: int| 0 <= i < entries.len() && entries[i] == entry;
        assert(entries[i] == entry);
    }
}

/// The diagnostics of the first `n` episodes are exactly those that the
/// verdicts on the files of these episodes call for.
proof fn lemma_diagnostics(pod: &Podcast, n: int, entry: FormatDiagnostic)
    requires
        0 <= n <= pod@.episodes.len(),
    ensures
        diagnostics_upto(pod@.formats, pod@.episodes, n).contains(entry) <==> {
            &&& entry.episode < n
            &&& entry.file < pod@.episodes[entry.episode as int].files.len()
            &&& diagnostic_for(
                pod@.formats,
                pod@.episodes[entry.episode as int].files,
                entry.episode as int,
                entry.file as int,
            ) == Some(entry)
        },
    decreases n,
{
    let entries = diagnostics_upto(pod@.formats, pod@.episodes, n);
    if n > 0 {
        lemma_diagnostics(pod, n - 1, entry);
        let earlier = diagnostics_upto(pod@.formats, pod@.episodes, n - 1);
        let files = pod@.episodes[n - 1].files;
        assert(pod.episodes@.len() == pod.episodes.len());
        assert(files.len() == pod.episodes@[n - 1].files.len());
        let latest = episode_diagnostics(pod@.formats, files, n - 1, files.len() as int);
        lemma_episode_diagnostics(pod@.formats, files, n - 1, files.len() as int, entry);
        assert(entries == earlier + latest);
        if earlier.contains(entry) {
            let i = choose|i: int| 0 <= i < earlier.len() && earlier[i] == entry;
            assert(entries[i] == entry);
        }
        if latest.contains(entry) {
            let i = choose|i: int| 0 <= i < latest.len() && latest[i] == entry;
            assert(entries[earlier.len() + i] == entry);
        }
        if entries.contains(entry) {
            let i = choose|i: int| 0 <= i < entries.len() && entries[i] == entry;
            if i < earlier.len() {
                assert(earlier[i] == entry);
            } else {
                assert(latest[i - earlier.len()] == entry);
            }
        }
    } else {
        if entries.contains(entry) {
            let i = choose|i: int| 0 <= i < entries.len() && entries[i] == entry;
            assert(entries[i] == entry);
        }
    }
}

/// Every file of every episode meets exactly one fate. Either it is
/// accepted: then it goes into the feed of its format and no diagnostic
/// names it. Or it is dropped: then it goes into no feed, and the
/// diagnostics report it, with the reason that applies and no other.
pub proof fn law_every_file_is_accepted_or_reported(
    pod: &Podcast,
    pick: Pick,
    k: int,
    entry: FormatDiagnostic,
)
    requires
        pick.episode < pod@.episodes.len(),
        pick.file < pod@.episodes[pick.episode as int].files.len(),
        0 <= k < pod@.formats.len(),
        entry.episode == pick.episode,
        entry.file == pick.file,
    ensures
        ({
            let files = pod@.episodes[pick.episode as int].files;
            let reported = diagnostics_upto(
                pod@.formats,
                pod@.episodes,
                pod@.episodes.len() as int,
            );
            match verdict(pod@.formats, files, pick.file as int) {
                Verdict::Accepted { format } => {
                    &&& 0 <= format < pod@.formats.len()
                    &&& feeds_file(pod@, format, pick)
                    &&& !reported.contains(entry)
                },
                Verdict::Duplicate => {
                    &&& !feeds_file(pod@, k, pick)
                    &&& reported.contains(entry) <==> entry.reason == DropReason::DuplicateFormat
                },
                Verdict::Unsupported => {
                    &&& !feeds_file(pod@, k, pick)
                    &&& reported.contains(entry) <==> entry.reason == DropReason::UnsupportedFormat
                },
            }
        }),
{
    let files = pod@.episodes[pick.episode as int].files;
    lemma_diagnostics(pod, pod@.episodes.len() as int, entry);
    law_feed_holds_accepted_files(pod, k, pick);
    lemma_first_position(pod@.formats, token_of(files[pick.file as int]));
    match verdict(pod@.formats, files, pick.file as int) {
        Verdict::Accepted { format } => {
            law_feed_holds_accepted_files(pod, format, pick);
        },
        _ => {},
    }
}

/// The line that reports a dropped file.
pub open spec fn diagnostic_text(
    reason: DropReason,
    token: Seq<char>,
    file: Seq<char>,
    title: Seq<char>,
) -> Seq<char> {
    match reason {
        DropReason::DuplicateFormat => "We've a file in the format '"@ + token
            + "' for the episode '"@ + title
            + "' has already been added. Skipping the file '"@ + file
            + "' due to duplicate format."@,
        DropReason::UnsupportedFormat => "This podcast does not include '"@ + token
            + "' among the available 'formats'! Skipping '"@ + file + "' in the episode '"@
            + title + "'."@,
    }
}

impl FormatDiagnostic {
    /// Whether the diagnostic names a file of `pod`.
    pub open spec fn refers_into(&self, pod: PodcastView) -> bool {
        &&& self.episode < pod.episodes.len()
        &&& self.file < pod.episodes[self.episode as int].files.len()
    }

    /// Words the diagnostic as a line for the reader, with the file's
    /// token, its path and the title of its episode. There is no line where
    /// the diagnostic does not name a file of `pod`.
    pub fn describe(&self, pod: &Podcast) -> (line: Option<String>)
        ensures
            line is Some <==> self.refers_into(pod@),
            line matches Some(text) ==> text@ == diagnostic_text(
                self.reason,
                token_of(pod@.episodes[self.episode as int].files[self.file as int]),
                pod@.episodes[self.episode as int].files[self.file as int],
                pod@.episodes[self.episode as int].title,
            ),
    {
        if self.episode >= pod.episodes.len() {
            return None;
        }
        let episode = &pod.episodes[self.episode];
        proof {
            assert(pod@.episodes[self.episode as int] == episode@);
            assert(episode@.files.len() == episode.files@.len());
        }
        if self.file >= episode.files.len() {
            return None;
        }
        let file = episode.files[self.file].as_str();
        let token = format_token(file);
        proof {
            assert(file@ == episode@.files[self.file as int]);
        }
        let mut text: String;
        match self.reason {
            DropReason::DuplicateFormat => {
                text = String::from_str("We've a file in the format '");
                text.append(token.as_str());
                text.append("' for the episode '");
                text.append(episode.title.as_str());
                text.append("' has already been added. Skipping the file '");
                text.append(file);
                text.append("' due to duplicate format.");
            },
            DropReason::UnsupportedFormat => {
                text = String::from_str("This podcast does not include '");
                text.append(token.as_str());
                text.append("' among the available 'formats'! Skipping '");
                text.append(file);
                text.append("' in the episode '");
                text.append(episode.title.as_str());
                text.append("'.");
            },
        }
        Some(text)
    }
}

/// Computes the format token of each file of `episode`.
fn tokens_of_episode(episode: &Episode) -> (tokens: Vec<String>)
    ensures
        texts(tokens@) == file_tokens(episode@.files),
{
    let mut tokens: Vec<String> = Vec::new();
    let mut j: usize = 0;
    while j < episode.files.len()
        invariant
            0 <= j <= episode.files.len(),
            tokens@.len() == j,
            forall|i: int| 0 <= i < j ==> (#[trigger] tokens@[i])@ == token_of(episode.files@[i]@),
        decreases episode.files.len() - j,
    {
        tokens.push(format_token(episode.files[j].as_str()));
        j = j + 1;
    }
    proof {
        assert(texts(tokens@) =~= file_tokens(episode@.files));
    }
    tokens
}

/// Computes the format tokens of every file of every episode.
fn tokens_of_show(pod: &Podcast) -> (tokens: Vec<Vec<String>>)
    ensures
        tokens@.len() == pod.episodes@.len(),
        forall|e: int|
            0 <= e < tokens@.len() ==> texts((#[trigger] tokens@[e])@) == file_tokens(
                pod@.episodes[e].files,
            ),
{
    let mut tokens: Vec<Vec<String>> = Vec::new();
    let mut e: usize = 0;
    while e < pod.episodes.len()
        invariant
            0 <= e <= pod.episodes.len(),
            tokens@.len() == e,
            forall|i: int|
                0 <= i < e ==> texts((#[trigger] tokens@[i])@) == file_tokens(
                    pod@.episodes[i].files,
                ),
        decreases pod.episodes.len() - e,
    {
        tokens.push(tokens_of_episode(&pod.episodes[e]));
        e = e + 1;
    }
    tokens
}

/// Collects the diagnostics of one episode, in file order.
fn diagnose_episode(
    formats: &Vec<String>,
    tokens: &Vec<String>,
    e: usize,
    diagnostics: &mut Vec<FormatDiagnostic>,
    Ghost(files): Ghost<Seq<Seq<char>>>,
)
    requires
        texts(tokens@) == file_tokens(files),
    ensures
        final(diagnostics)@ == old(diagnostics)@ + episode_diagnostics(
            texts(formats@),
            files,
            e as int,
            files.len() as int,
        ),
{
    let ghost before = diagnostics@;
    let mut j: usize = 0;
    proof {
        assert(tokens@.len() == files.len()) by {
            assert(texts(tokens@).len() == tokens@.len());
            assert(file_tokens(files).len() == files.len());
        }
    }
    while j < tokens.len()
        invariant
            0 <= j <= tokens.len(),
            tokens@.len() == files.len(),
            texts(tokens@) == file_tokens(files),
            diagnostics@ == before + episode_diagnostics(
                texts(formats@),
                files,
                e as int,
                j as int,
            ),
        decreases tokens.len() - j,
    {
        let token = tokens[j].as_str();
        proof {
            assert(token@ == texts(tokens@)[j as int]);
            assert(token@ == token_of(files[j as int]));
        }
        let ghost earlier = episode_diagnostics(texts(formats@), files, e as int, j as int);
        match find_first(formats, token) {
            None => {
                let entry = FormatDiagnostic {
                    reason: DropReason::UnsupportedFormat,
                    episode: e,
                    file: j,
                };
                diagnostics.push(entry);
                proof {
                    assert(diagnostics@ =~= before + earlier.push(entry));
                }
            },
            Some(_) => {
                let first = find_first(tokens, token);
                let accepted = match first {
                    Some(at) => at == j,
                    None => false,
                };
                if !accepted {
                    let entry = FormatDiagnostic {
                        reason: DropReason::DuplicateFormat,
                        episode: e,
                        file: j,
                    };
                    diagnostics.push(entry);
                    proof {
                        assert(diagnostics@ =~= before + earlier.push(entry));
                    }
                }
            },
        }
        j = j + 1;
    }
}

/// Collects the picks of the declared format at `k`, in episode order.
fn picks_of_format(pod: &Podcast, tokens: &Vec<Vec<String>>, k: usize) -> (picks: Vec<Pick>)
    requires
        k < pod.formats@.len(),
        tokens@.len() == pod.episodes@.len(),
        forall|e: int|
            0 <= e < tokens@.len() ==> texts((#[trigger] tokens@[e])@) == file_tokens(
                pod@.episodes[e].files,
            ),
    ensures
        picks@ == group_picks(pod@.formats, pod@.episodes, k as int, pod@.episodes.len() as int),
{
    let mut picks: Vec<Pick> = Vec::new();
    let format = pod.formats[k].as_str();
    let leads = match find_first(&pod.formats, format) {
        Some(at) => at == k,
        None => false,
    };
    let ghost formats = pod@.formats;
    let ghost episodes = pod@.episodes;
    proof {
        assert(format@ == formats[k as int]);
    }
    let mut e: usize = 0;
    while e < tokens.len()
        invariant
            0 <= e <= tokens.len(),
            k < formats.len(),
            formats == pod@.formats,
            episodes == pod@.episodes,
            format@ == formats[k as int],
            leads == (first_position(formats, formats[k as int]) == Some(k as int)),
            tokens@.len() == episodes.len(),
            forall|i: int|
                0 <= i < tokens@.len() ==> texts((#[trigger] tokens@[i])@) == file_tokens(
                    episodes[i].files,
                ),
            picks@ == group_picks(formats, episodes, k as int, e as int),
        decreases tokens.len() - e,
    {
        proof {
            assert(texts(tokens@[e as int]@) == file_tokens(episodes[e as int].files));
        }
        if leads {
            match find_first(&tokens[e], format) {
                Some(j) => {
                    picks.push(Pick { episode: e, file: j });
                },
                None => {},
            }
        }
        e = e + 1;
    }
    picks
}

/// Sorts every media file of `pod` into the feed of its format, or drops it
/// with a diagnostic. Every declared format gets a group, even an empty one.
pub fn resolve_formats(pod: &Podcast) -> (partition: FormatPartition)
    ensures
        partition.is_partition_of(pod@),
{
    let tokens = tokens_of_show(pod);
    let ghost formats = pod@.formats;
    let ghost episodes = pod@.episodes;

    let mut diagnostics: Vec<FormatDiagnostic> = Vec::new();
    let mut e: usize = 0;
    while e < tokens.len()
        invariant
            0 <= e <= tokens.len(),
            formats == pod@.formats,
            episodes == pod@.episodes,
            tokens@.len() == episodes.len(),
            forall|i: int|
                0 <= i < tokens@.len() ==> texts((#[trigger] tokens@[i])@) == file_tokens(
                    episodes[i].files,
                ),
            diagnostics@ == diagnostics_upto(formats, episodes, e as int),
        decreases tokens.len() - e,
    {
        diagnose_episode(
            &pod.formats,
            &tokens[e],
            e,
            &mut diagnostics,
            Ghost(episodes[e as int].files),
        );
        e = e + 1;
    }

    let mut groups: Vec<FormatGroup> = Vec::new();
    let mut k: usize = 0;
    while k < pod.formats.len()
        invariant
            0 <= k <= pod.formats.len(),
            formats == pod@.formats,
            episodes == pod@.episodes,
            formats.len() == pod.formats@.len(),
            tokens@.len() == pod.episodes@.len(),
            forall|i: int|
                0 <= i < tokens@.len() ==> texts((#[trigger] tokens@[i])@) == file_tokens(
                    pod@.episodes[i].files,
                ),
            groups@.len() == k,
            forall|g: int|
                0 <= g < k ==> {
                    &&& (#[trigger] groups@[g]).format@ == formats[g]
                    &&& groups@[g].picks@ == group_picks(
                        formats,
                        episodes,
                        g,
                        episodes.len() as int,
                    )
                },
        decreases pod.formats.len() - k,
    {
        let picks = picks_of_format(pod, &tokens, k);
        groups.push(FormatGroup { format: pod.formats[k].clone(), picks });
        k = k + 1;
    }
    FormatPartition { groups, diagnostics }
}

} // verus!
