use pdfg_rs::config::{check_format_token, ConfigError, Episode, Logo, Podcast};

fn show_declaring(formats: &[&str]) -> Podcast {
    Podcast {
        title: "The Show".to_string(),
        description: "A show".to_string(),
        subtitle: "Sub".to_string(),
        author: "Ann Author".to_string(),
        author_email: "ann@show.example".to_string(),
        website: "https://show.example".to_string(),
        language: "en".to_string(),
        copyright: "CC0".to_string(),
        webmaster: "web@show.example".to_string(),
        managing_editor: "ed@show.example".to_string(),
        formats: formats.iter().map(|format| format.to_string()).collect(),
        hosting_base_url: "https://media.example/show".to_string(),
        keywords: Vec::new(),
        explicit: false,
        logo: Logo {
            url: "https://show.example/logo.png".to_string(),
            title: "Logo".to_string(),
            link: "https://show.example".to_string(),
        },
        category: "Technology".to_string(),
        episodes: Vec::<Episode>::new(),
    }
}

#[test]
fn lowercase_extension_tokens_are_format_tokens() {
    assert!(check_format_token("mp3"));
    assert!(check_format_token("flac"));
    assert!(check_format_token("m4a"));
    assert!(check_format_token("ogg-hq"));
}

#[test]
fn a_token_with_an_upper_case_letter_is_no_format_token() {
    assert!(!check_format_token("MP3"));
    assert!(!check_format_token("Flac"));
    assert!(!check_format_token("ÄAC"));
}

#[test]
fn an_empty_or_dotted_text_is_no_format_token() {
    assert!(!check_format_token(""));
    assert!(!check_format_token(".mp3"));
    assert!(!check_format_token("tar.gz"));
    assert!(!check_format_token("mp3."));
}

#[test]
fn distinct_lowercase_formats_are_valid() {
    assert_eq!(show_declaring(&["mp3"]).validate(), Ok(()));
    assert_eq!(show_declaring(&["mp3", "flac", "m4a"]).validate(), Ok(()));
}

#[test]
fn a_show_without_formats_is_refused() {
    assert_eq!(show_declaring(&[]).validate(), Err(ConfigError::NoFormats));
}

#[test]
fn the_first_entry_that_is_no_token_is_named() {
    assert_eq!(
        show_declaring(&["mp3", "FLAC", "M4A"]).validate(),
        Err(ConfigError::NotAFormatToken { index: 1 })
    );
    assert_eq!(
        show_declaring(&["", "mp3"]).validate(),
        Err(ConfigError::NotAFormatToken { index: 0 })
    );
    assert_eq!(
        show_declaring(&["mp3", "a.b"]).validate(),
        Err(ConfigError::NotAFormatToken { index: 1 })
    );
}

#[test]
fn the_first_repeated_entry_is_named() {
    assert_eq!(
        show_declaring(&["mp3", "flac", "mp3", "flac"]).validate(),
        Err(ConfigError::DuplicateFormat { index: 2 })
    );
    assert_eq!(
        show_declaring(&["mp3", "mp3"]).validate(),
        Err(ConfigError::DuplicateFormat { index: 1 })
    );
}

#[test]
fn the_earliest_broken_entry_decides_the_error() {
    assert_eq!(
        show_declaring(&["mp3", "mp3", "FLAC"]).validate(),
        Err(ConfigError::DuplicateFormat { index: 1 })
    );
    assert_eq!(
        show_declaring(&["MP3", "mp3", "mp3"]).validate(),
        Err(ConfigError::NotAFormatToken { index: 0 })
    );
}
