use manga_dl::cli::{get_args, Cli, LogLevel, SupportedSites, Url};
use manga_dl::error::ArgError;
use manga_dl::style::style_text;

fn cli_of(urls: &[&str]) -> Cli {
    Cli {
        urls: urls.iter().map(|u| u.to_string()).collect(),
        indexes: None,
        input_path: None,
        log: LogLevel::Normal,
    }
}

#[test]
fn check_url_adds_scheme_and_lowers_case() {
    let r = Url::check_url("MangaReader.to/read/Vagabond-4/ja/chapter-6".to_string());
    assert_eq!(r.ok().unwrap(), "https://mangareader.to/read/vagabond-4/ja/chapter-6");
}

#[test]
fn check_url_keeps_an_existing_scheme() {
    let r = Url::check_url("https://mangagun.net/gunchap-999.html".to_string());
    assert_eq!(r.ok().unwrap(), "https://mangagun.net/gunchap-999.html");
}

#[test]
fn check_url_rejects_non_ascii() {
    match Url::check_url("mangareader.to/read/é".to_string()) {
        Err(ArgError::InvalidUrl { url, reason, example }) => {
            assert_eq!(url, "https://mangareader.to/read/é");
            assert_eq!(reason, style_text("URL is not valid ASCII"));
            assert_eq!(example, style_text("mangareader.to/read/vagabond-4/ja/chapter-6"));
        }
        _ => panic!("expected InvalidUrl"),
    }
}

#[test]
fn check_url_rejects_missing_top_level_domain() {
    match Url::check_url("mangareader/read/x".to_string()) {
        Err(ArgError::InvalidUrl { url, reason, example }) => {
            assert_eq!(url, "https://mangareader/read/x");
            assert_eq!(reason, "\x1b[32mURL is missing or has an invalid top-level domain\x1b[39m");
            assert_eq!(example, "\x1b[32m*.com | *.to | *.net\x1b[39m");
        }
        _ => panic!("expected InvalidUrl"),
    }
}

#[test]
fn check_url_rejects_unsupported_site() {
    match Url::check_url("example.com/a".to_string()) {
        Err(ArgError::WebsiteNotSupported(url)) => assert_eq!(url, "https://example.com/a"),
        _ => panic!("expected WebsiteNotSupported"),
    }
}

#[test]
fn check_url_rejects_reader_url_without_read() {
    match Url::check_url("mangareader.to/home".to_string()) {
        Err(ArgError::InvalidUrl { reason, .. }) => {
            assert_eq!(reason, "\x1b[1m\x1b[37mmangareader URL is missing /read\x1b[39m\x1b[0m");
        }
        _ => panic!("expected InvalidUrl"),
    }
}

#[test]
fn check_lowered_url_rejects_empty() {
    match Url::check_lowered_url(String::new()) {
        Err(ArgError::InvalidUrl { url, reason, .. }) => {
            assert_eq!(url, "");
            assert_eq!(reason, style_text("Empty string"));
        }
        _ => panic!("expected InvalidUrl"),
    }
}

#[test]
fn from_str_reads_mangareader_title() {
    let u = Url::from_str("mangareader.to/read/vagabond-4/ja/chapter-6").ok().unwrap();
    assert_eq!(u.site, SupportedSites::MangaReader);
    assert_eq!(u.title.as_deref(), Some("vagabond-4-ja-chapter-6"));
    assert_eq!(u.url, "https://mangareader.to/read/vagabond-4/ja/chapter-6");
}

#[test]
fn from_str_reads_mangagun_title() {
    let u = Url::from_str("https://mangagun.net/gunchap-999-shmg-one-piece-raw.html").ok().unwrap();
    assert_eq!(u.site, SupportedSites::MangaGun);
    assert_eq!(u.title.as_deref(), Some("gunchap-999-shmg-one-piece-raw.html"));
}

#[test]
fn from_str_reads_rawmanga_title() {
    let u = Url::from_str("https://rawmanga.net/manga/one-piece/chapter-999").ok().unwrap();
    assert_eq!(u.site, SupportedSites::RawManga);
    assert_eq!(u.title.as_deref(), Some("one-piece_chapter-999"));
}

#[test]
fn title_of_rawmanga_is_trimmed() {
    let t = Url::get_title_from_valid_url("x/manga/ one/two ", &SupportedSites::RawManga);
    assert_eq!(t.as_deref(), Some("one_two"));
}

#[test]
fn title_missing_without_marker() {
    let t = Url::get_title_from_valid_url("https://mangareader.to/home", &SupportedSites::MangaReader);
    assert!(t.is_none());
}

#[test]
fn is_site_supported_takes_first_site_name() {
    assert_eq!(
        Url::is_site_supported("https://mangagun.net/x").ok(),
        Some(SupportedSites::MangaGun)
    );
    assert!(matches!(
        Url::is_site_supported("https://example.com"),
        Err(ArgError::WebsiteNotSupported(_))
    ));
}

#[test]
fn check_urls_keeps_order() {
    let c = cli_of(&[
        "mangareader.to/read/vagabond-4/ja/chapter-6",
        "https://rawmanga.net/manga/one-piece/chapter-999",
    ]);
    let urls = c.check_urls().ok().unwrap();
    assert_eq!(urls.len(), 2);
    assert_eq!(urls[0].site, SupportedSites::MangaReader);
    assert_eq!(urls[1].site, SupportedSites::RawManga);
}

#[test]
fn check_urls_stops_at_first_error() {
    let c = cli_of(&["mangareader.to/read/a", "example.com/b", "example.net/c"]);
    match c.check_urls() {
        Err(ArgError::WebsiteNotSupported(url)) => assert_eq!(url, "https://example.com/b"),
        _ => panic!("expected WebsiteNotSupported"),
    }
}

#[test]
fn get_args_hands_back_valid_command_line() {
    let c = cli_of(&["mangagun.net/x"]);
    let a = get_args(c).ok().unwrap();
    assert_eq!(a.urls, vec!["mangagun.net/x".to_string()]);
    assert!(get_args(cli_of(&["nowhere"])).is_err());
}

#[test]
fn arg_error_message_text() {
    let e = ArgError::WebsiteNotSupported("https://example.com".to_string());
    assert_eq!(
        e.message(),
        "--url argument: https://example.com is not a supported site.\nrun with --help for a list of supported sites."
    );
    let e = ArgError::InvalidUrl {
        url: "u".to_string(),
        reason: "r".to_string(),
        example: "e".to_string(),
    };
    assert_eq!(e.message(), "--url argument: u is not a valid url\nReason: r\nExample: e");
}
