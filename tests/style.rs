use manga_dl::loading::{
    download_complete_msg, downloading_panel_data_msg, fetching_img_bytes, indexes_failed_msg,
    reqerr_count_msg,
};
use manga_dl::style::style_text;

#[test]
fn style_macro() {
    let text = [
        style_text("mangareader.to/read/vagabond-4/ja/chapter-6"),
        style_text("c:/users/arami/desktop"),
    ];

    for t in text {
        println!("{t}");
    }
}

#[test]
fn style_text_picks_purple_for_site_paths() {
    assert_eq!(
        style_text("mangareader.to/read/vagabond-4/ja/chapter-6"),
        "\x1b[35mmangareader.to/read/vagabond-4/ja/chapter-6\x1b[39m"
    );
}

#[test]
fn style_text_picks_bold_white_for_other_paths() {
    assert_eq!(
        style_text("c:/users/arami/desktop"),
        "\x1b[1m\x1b[37mc:/users/arami/desktop\x1b[39m\x1b[0m"
    );
}

#[test]
fn style_text_picks_bold_red_for_errors_in_any_case() {
    assert_eq!(style_text("Fatal ERROR"), "\x1b[1m\x1b[31mFatal ERROR\x1b[39m\x1b[0m");
}

#[test]
fn style_text_picks_green_otherwise() {
    assert_eq!(style_text("*.com | *.to"), "\x1b[32m*.com | *.to\x1b[39m");
}

#[test]
fn downloading_message_counts_from_one() {
    assert_eq!(
        downloading_panel_data_msg(0, 12),
        "\x1b[35m1\x1b[39m / \x1b[35m12\x1b[39m"
    );
    assert_eq!(
        downloading_panel_data_msg(65534, 65535),
        "\x1b[35m65535\x1b[39m / \x1b[35m65535\x1b[39m"
    );
}

#[test]
fn fetching_message_is_green() {
    assert_eq!(fetching_img_bytes(), "\x1b[32mfetching img bytes\x1b[39m");
}

#[test]
fn indexes_failed_message() {
    assert_eq!(
        indexes_failed_msg(3),
        "\x1b[1m\x1b[91mWARNING\x1b[39m\x1b[0m: \x1b[1m3\x1b[0m \x1b[91mpanels failed; trying once\x1b[39m"
    );
}

#[test]
fn request_error_count_message() {
    assert_eq!(
        reqerr_count_msg(2, "\"one-piece\""),
        "\x1b[1m\x1b[91m\nWARNING\x1b[39m\x1b[0m: \x1b[1m2\x1b[0m \x1b[91merror(s) occured; failed on\x1b[39m: \x1b[1m\"one-piece\"\x1b[0m."
    );
}

#[test]
fn download_complete_message() {
    assert_eq!(download_complete_msg("1.5s"), "\x1b[35m1.5s\x1b[39m");
}
