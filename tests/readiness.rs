use manga_dl::adapter::{hide_script, parse_page_count, SiteAdapter};
use manga_dl::cli::SupportedSites;
use manga_dl::readiness::{bitmap_poll, source_poll, PollStep, POLL_INTERVAL_MS, SETTLE_DELAY_MS};

#[test]
fn placeholder_never_times_out_before_max_wait() {
    let max = 5000u64;
    let mut elapsed = 0u64;
    loop {
        let step = bitmap_poll("PLACEHOLDER", "PLACEHOLDER", elapsed, max);
        if elapsed < max {
            assert_eq!(step, PollStep::Wait { sleep_ms: POLL_INTERVAL_MS });
        } else {
            assert_eq!(step, PollStep::TimedOut);
            break;
        }
        elapsed += POLL_INTERVAL_MS;
    }
    assert_eq!(elapsed, max);
}

#[test]
fn placeholder_times_out_after_max_wait_too() {
    assert_eq!(bitmap_poll("P", "P", 5001, 5000), PollStep::TimedOut);
    assert_eq!(bitmap_poll("P", "P", 4999, 5000), PollStep::Wait { sleep_ms: 200 });
}

#[test]
fn divergent_snapshot_is_ready_after_settle() {
    assert_eq!(
        bitmap_poll("data:image/png;base64,AAAA", "P", 0, 5000),
        PollStep::Ready { settle_ms: SETTLE_DELAY_MS }
    );
    assert_eq!(bitmap_poll("Q", "P", 9000, 5000), PollStep::Ready { settle_ms: 350 });
}

#[test]
fn source_needs_width_and_no_gif() {
    assert_eq!(source_poll(Some("https://c/1.jpg"), 800, 0, 2000), PollStep::Ready { settle_ms: 0 });
    assert_eq!(source_poll(Some("https://c/1.jpg"), 300, 0, 2000), PollStep::Wait { sleep_ms: 200 });
    assert_eq!(source_poll(Some("https://c/loading.gif"), 800, 0, 2000), PollStep::Wait { sleep_ms: 200 });
    assert_eq!(source_poll(Some("https://c/loading.gif"), 800, 2000, 2000), PollStep::TimedOut);
}

#[test]
fn source_absent_at_the_end_is_missing() {
    assert_eq!(source_poll(None, 800, 100, 2000), PollStep::Wait { sleep_ms: 200 });
    assert_eq!(source_poll(None, 800, 2000, 2000), PollStep::Missing);
    assert_eq!(source_poll(Some("  "), 800, 2500, 2000), PollStep::Missing);
}

#[test]
fn page_count_parsing() {
    assert_eq!(parse_page_count("42"), Some(42));
    assert_eq!(parse_page_count("+7"), Some(7));
    assert_eq!(parse_page_count("65535"), Some(65535));
    assert_eq!(parse_page_count("65536"), None);
    assert_eq!(parse_page_count(""), None);
    assert_eq!(parse_page_count("+"), None);
    assert_eq!(parse_page_count(" 4"), None);
    assert_eq!(parse_page_count("4a"), None);
    assert_eq!(parse_page_count("999999999999x"), None);
}

#[test]
fn adapters_per_site() {
    let r = SiteAdapter::for_site(SupportedSites::MangaReader);
    assert!(r.paginated);
    assert_eq!(r.counter_selector, "span.hoz-total-image");
    assert_eq!(r.advance_script, "hozNextImage()");
    let g = SiteAdapter::for_site(SupportedSites::MangaGun);
    assert!(!g.paginated);
    assert_eq!(g.obstruction_selectors.len(), 4);
    assert_eq!(g.obstruction_selectors[3], "#adModal");
    let w = SiteAdapter::for_site(SupportedSites::RawManga);
    assert_eq!(w.image_selector, "div.page-chapter img");
}

#[test]
fn hide_script_names_the_selector() {
    assert_eq!(
        hide_script(".navbar"),
        "var element = document.querySelector('.navbar'); if (element) { element.style.display = 'none'; }"
    );
}

#[test]
fn waits_and_capture_kinds() {
    assert_eq!(manga_dl::readiness::PANEL_WAIT_MS, 5000);
    assert_eq!(manga_dl::readiness::FETCH_TIMEOUT_MS, 2500);
    assert!(SiteAdapter::for_site(SupportedSites::MangaReader).canvas_surface);
    assert!(!SiteAdapter::for_site(SupportedSites::RawManga).canvas_surface);
}
