use pdfg_rs::config::{Episode, Logo, Podcast};
use pdfg_rs::resolver::{resolve_formats, DropReason, FormatDiagnostic, Pick};
use pdfg_rs::text::{find_first, format_token};

fn texts_of(items: &[&str]) -> Vec<String> {
    items.iter().map(|item| item.to_string()).collect()
}

fn episode_with_files(title: &str, files: &[&str]) -> Episode {
    Episode {
        title: title.to_string(),
        url: format!("https://show.example/{}", title),
        description: "About this one".to_string(),
        subtitle: "In short".to_string(),
        files: texts_of(files),
        duration: "00:10:00".to_string(),
        publish_date: "Tue, 01 Jul 2003 10:52:37 +0200".to_string(),
        keywords: texts_of(&["talk", "tech"]),
        length_bytes: 1234,
        transcript_url: None,
    }
}

fn show_with(formats: &[&str], episodes: Vec<Episode>) -> Podcast {
    Podcast {
        title: "The Show".to_string(),
        description: "A show".to_string(),
        subtitle: "Sub".to_string(),
        author: "Ann Author".to_string(),
        author_email: "ann@show.example".to_string(),
        website: "https://show.example".to_string(),
        language: "en".to_string(),
        copyright: "CC0".to_string(),
        webmaster: "web@show.example".to_string(),
        managing_editor: "ed@show.example".to_string(),
        formats: texts_of(formats),
        hosting_base_url: "https://media.example/show".to_string(),
        keywords: texts_of(&["one", "two"]),
        explicit: false,
        logo: Logo {
            url: "https://show.example/logo.png".to_string(),
            title: "Logo".to_string(),
            link: "https://show.example".to_string(),
        },
        category: "Technology".to_string(),
        episodes,
    }
}

#[test]
fn token_is_the_text_after_the_last_dot() {
    assert_eq!(format_token("a.mp3"), "mp3");
    assert_eq!(format_token("season1/ep.one.flac"), "flac");
    assert_eq!(format_token("archive.tar.gz"), "gz");
    assert_eq!(format_token(".mp3"), "mp3");
}

#[test]
fn token_of_a_path_without_dot_is_the_path() {
    assert_eq!(format_token("README"), "README");
    assert_eq!(format_token(""), "");
}

#[test]
fn token_of_a_path_ending_in_a_dot_is_empty() {
    assert_eq!(format_token("a."), "");
    assert_eq!(format_token("."), "");
}

#[test]
fn token_keeps_the_case_and_the_characters_of_the_path() {
    assert_eq!(format_token("a.MP3"), "MP3");
    assert_eq!(format_token("übung.möp"), "möp");
}

#[test]
fn find_first_names_the_earliest_match() {
    let items = texts_of(&["mp3", "flac", "mp3"]);
    assert_eq!(find_first(&items, "mp3"), Some(0));
    assert_eq!(find_first(&items, "flac"), Some(1));
    assert_eq!(find_first(&items, "wav"), None);
    assert_eq!(find_first(&Vec::new(), "mp3"), None);
}

#[test]
fn first_seen_wins() {
    let pod = show_with(&["mp3"], vec![episode_with_files("one", &["a.mp3", "b.mp3"])]);
    let partition = resolve_formats(&pod);
    assert_eq!(partition.groups.len(), 1);
    assert_eq!(partition.groups[0].format, "mp3");
    assert_eq!(partition.groups[0].picks, vec![Pick { episode: 0, file: 0 }]);
    assert_eq!(
        partition.diagnostics,
        vec![FormatDiagnostic { reason: DropReason::DuplicateFormat, episode: 0, file: 1 }]
    );
}

#[test]
fn unsupported_format_is_dropped() {
    let pod = show_with(&["mp3"], vec![episode_with_files("one", &["c.wav"])]);
    let partition = resolve_formats(&pod);
    assert_eq!(partition.groups.len(), 1);
    assert!(partition.groups[0].picks.is_empty());
    assert_eq!(
        partition.diagnostics,
        vec![FormatDiagnostic { reason: DropReason::UnsupportedFormat, episode: 0, file: 0 }]
    );
}

#[test]
fn every_declared_format_has_a_group() {
    let pod = show_with(&["mp3", "flac", "m4a"], vec![episode_with_files("one", &["a.flac"])]);
    let partition = resolve_formats(&pod);
    assert_eq!(partition.groups.len(), 3);
    assert_eq!(partition.groups[0].format, "mp3");
    assert_eq!(partition.groups[1].format, "flac");
    assert_eq!(partition.groups[2].format, "m4a");
    assert!(partition.groups[0].picks.is_empty());
    assert_eq!(partition.groups[1].picks, vec![Pick { episode: 0, file: 0 }]);
    assert!(partition.groups[2].picks.is_empty());
    assert!(partition.diagnostics.is_empty());
}

#[test]
fn a_show_without_episodes_still_has_its_groups() {
    let pod = show_with(&["mp3", "flac"], Vec::new());
    let partition = resolve_formats(&pod);
    assert_eq!(partition.groups.len(), 2);
    assert!(partition.groups[0].picks.is_empty());
    assert!(partition.groups[1].picks.is_empty());
    assert!(partition.diagnostics.is_empty());
}

#[test]
fn tokens_are_matched_case_sensitively() {
    let pod = show_with(&["mp3"], vec![episode_with_files("one", &["a.MP3", "b.mp3"])]);
    let partition = resolve_formats(&pod);
    assert_eq!(partition.groups[0].picks, vec![Pick { episode: 0, file: 1 }]);
    assert_eq!(
        partition.diagnostics,
        vec![FormatDiagnostic { reason: DropReason::UnsupportedFormat, episode: 0, file: 0 }]
    );
}

#[test]
fn episode_and_file_order_are_kept() {
    let pod = show_with(
        &["flac", "mp3"],
        vec![
            episode_with_files("one", &["x.txt", "a.mp3", "a.flac", "b.flac"]),
            episode_with_files("two", &["notes"]),
            episode_with_files("three", &["c.mp3", "c.mp3", "c.ogg"]),
        ],
    );
    let partition = resolve_formats(&pod);
    assert_eq!(partition.groups[0].format, "flac");
    assert_eq!(partition.groups[0].picks, vec![Pick { episode: 0, file: 2 }]);
    assert_eq!(partition.groups[1].format, "mp3");
    assert_eq!(
        partition.groups[1].picks,
        vec![Pick { episode: 0, file: 1 }, Pick { episode: 2, file: 0 }]
    );
    assert_eq!(
        partition.diagnostics,
        vec![
            FormatDiagnostic { reason: DropReason::UnsupportedFormat, episode: 0, file: 0 },
            FormatDiagnostic { reason: DropReason::DuplicateFormat, episode: 0, file: 3 },
            FormatDiagnostic { reason: DropReason::UnsupportedFormat, episode: 1, file: 0 },
            FormatDiagnostic { reason: DropReason::DuplicateFormat, episode: 2, file: 1 },
            FormatDiagnostic { reason: DropReason::UnsupportedFormat, episode: 2, file: 2 },
        ]
    );
}

#[test]
fn a_file_goes_into_at_most_one_group() {
    let pod = show_with(
        &["mp3", "flac"],
        vec![episode_with_files("one", &["a.mp3", "a.flac", "b.mp3", "c.wav"])],
    );
    let partition = resolve_formats(&pod);
    for file in 0..4 {
        let holders = partition
            .groups
            .iter()
            .filter(|group| group.picks.contains(&Pick { episode: 0, file }))
            .count();
        assert!(holders <= 1);
        let dropped = partition
            .diagnostics
            .iter()
            .filter(|entry| entry.episode == 0 && entry.file == file)
            .count();
        assert_eq!(holders + dropped, 1);
    }
    for group in &partition.groups {
        for pick in &group.picks {
            let path = &pod.episodes[pick.episode].files[pick.file];
            assert_eq!(format_token(path), group.format);
        }
    }
}

#[test]
fn a_repeated_format_entry_receives_nothing() {
    let pod = show_with(&["mp3", "mp3"], vec![episode_with_files("one", &["a.mp3"])]);
    let partition = resolve_formats(&pod);
    assert_eq!(partition.groups.len(), 2);
    assert_eq!(partition.groups[0].picks, vec![Pick { episode: 0, file: 0 }]);
    assert!(partition.groups[1].picks.is_empty());
    assert!(partition.diagnostics.is_empty());
}

#[test]
fn a_duplicate_is_reported_with_its_token_episode_and_file() {
    let pod = show_with(&["mp3"], vec![episode_with_files("one", &["a.mp3", "b.mp3"])]);
    let entry = FormatDiagnostic { reason: DropReason::DuplicateFormat, episode: 0, file: 1 };
    assert_eq!(
        entry.describe(&pod),
        Some(
            "We've a file in the format 'mp3' for the episode 'one' has already been added. \
             Skipping the file 'b.mp3' due to duplicate format."
                .to_string()
        )
    );
}

#[test]
fn an_unsupported_file_is_reported_with_its_token_file_and_episode() {
    let pod = show_with(&["mp3"], vec![episode_with_files("one", &["c.wav"])]);
    let entry = FormatDiagnostic { reason: DropReason::UnsupportedFormat, episode: 0, file: 0 };
    assert_eq!(
        entry.describe(&pod),
        Some(
            "This podcast does not include 'wav' among the available 'formats'! \
             Skipping 'c.wav' in the episode 'one'."
                .to_string()
        )
    );
}

#[test]
fn a_diagnostic_that_names_no_file_has_no_line() {
    let pod = show_with(&["mp3"], vec![episode_with_files("one", &["c.wav"])]);
    let beyond_files =
        FormatDiagnostic { reason: DropReason::UnsupportedFormat, episode: 0, file: 1 };
    let beyond_episodes =
        FormatDiagnostic { reason: DropReason::DuplicateFormat, episode: 1, file: 0 };
    assert_eq!(beyond_files.describe(&pod), None);
    assert_eq!(beyond_episodes.describe(&pod), None);
}
