//! Per-site configuration, and reading the panel count a reader shows.
use crate::cli::SupportedSites;
use crate::outcome::RetryPolicy;
use vstd::prelude::*;

verus! {

/// How one site is driven: where its panels are, how its reader moves to the
/// next panel, and what covers the panels and has to be hidden.
pub struct SiteAdapter {
    pub site: SupportedSites,
    /// The reader shows one panel at a time and has its own "next" call;
    /// otherwise all panels stand in one strip, one element each.
    pub paginated: bool,
    /// The element whose text is the panel count (paginated readers).
    pub counter_selector: &'static str,
    /// The in-page call that moves the reader to the next panel (paginated readers).
    pub advance_script: &'static str,
    /// The rendering surface of the active panel, or of every panel in a strip.
    pub surface_selector: &'static str,
    /// Bitmaps are read from the surface as a canvas data URL; otherwise
    /// they are screenshots of the panel's element.
    pub canvas_surface: bool,
    /// The loaded image of the active panel, or of every panel in a strip.
    pub image_selector: &'static str,
    /// The images probed once per job to choose the preferred method.
    pub probe_selector: &'static str,
    /// Elements hidden before each readiness check: ads, modals, navigation bars.
    pub obstruction_selectors: Vec<&'static str>,
    /// Which failures the retry pass takes up on this site.
    pub retry_policy: RetryPolicy,
}

pub open spec fn str_views(v: Seq<&'static str>) -> Seq<Seq<char>> {
    v.map_values(|s: &'static str| s@)
}

/// The element that covers a page with the highest possible z-index: an ad overlay.
pub open spec fn overlay_selector() -> Seq<char> {
    "*[style*='z-index: 2147483647']"@
}

impl SiteAdapter {
    /// The configuration of `site`.
    pub fn for_site(site: SupportedSites) -> (r: SiteAdapter)
        ensures
            r.site == site,
            r.paginated == (site == SupportedSites::MangaReader),
            r.canvas_surface == (site == SupportedSites::MangaReader),
            r.retry_policy == (RetryPolicy { element_not_found: true, render_timeout: true }),
            site == SupportedSites::MangaReader ==> {
                &&& r.counter_selector@ == "span.hoz-total-image"@
                &&& r.advance_script@ == "hozNextImage()"@
                &&& r.surface_selector@ == "div.ds-item.active .image-horizontal"@
                &&& r.image_selector@
                    == "div.ds-item.active > div.ds-image.loaded > img.image-horizontal"@
                &&& r.probe_selector@ == "img.image-horizontal"@
                &&& str_views(r.obstruction_selectors@) == seq![overlay_selector()]
            },
            site == SupportedSites::MangaGun ==> {
                &&& r.surface_selector@ == "img.chapter-img"@
                &&& r.image_selector@ == "img.chapter-img"@
                &&& r.probe_selector@ == "img.chapter-img"@
                &&& str_views(r.obstruction_selectors@) == seq![
                    overlay_selector(),
                    ".navbar"@,
                    "#rd-side_icon"@,
                    "#adModal"@,
                ]
            },
            site == SupportedSites::RawManga ==> {
                &&& r.surface_selector@ == "div.page-chapter img"@
                &&& r.image_selector@ == "div.page-chapter img"@
                &&& r.probe_selector@ == "div.page-chapter img"@
                &&& str_views(r.obstruction_selectors@) == seq![overlay_selector()]
            },
    {
        let overlay = "*[style*='z-index: 2147483647']";
        match site {
            SupportedSites::MangaReader => {
                let mut hidden: Vec<&'static str> = Vec::new();
                hidden.push(overlay);
                assert(str_views(hidden@) =~= seq![overlay_selector()]);
                SiteAdapter {
                    site,
                    paginated: true,
                    canvas_surface: true,
                    counter_selector: "span.hoz-total-image",
                    advance_script: "hozNextImage()",
                    surface_selector: "div.ds-item.active .image-horizontal",
                    image_selector: "div.ds-item.active > div.ds-image.loaded > img.image-horizontal",
                    probe_selector: "img.image-horizontal",
                    obstruction_selectors: hidden,
                    retry_policy: RetryPolicy::transient_default(),
                }
            },
            SupportedSites::MangaGun => {
                let mut hidden: Vec<&'static str> = Vec::new();
                hidden.push(overlay);
                hidden.push(".navbar");
                hidden.push("#rd-side_icon");
                hidden.push("#adModal");
                assert(str_views(hidden@) =~= seq![
                    overlay_selector(),
                    ".navbar"@,
                    "#rd-side_icon"@,
                    "#adModal"@,
                ]);
                SiteAdapter {
                    site,
                    paginated: false,
                    canvas_surface: false,
                    counter_selector: "img.chapter-img",
                    advance_script: "",
                    surface_selector: "img.chapter-img",
                    image_selector: "img.chapter-img",
                    probe_selector: "img.chapter-img",
                    obstruction_selectors: hidden,
                    retry_policy: RetryPolicy::transient_default(),
                }
            },
            SupportedSites::RawManga => {
                let mut hidden: Vec<&'static str> = Vec::new();
                hidden.push(overlay);
                assert(str_views(hidden@) =~= seq![overlay_selector()]);
                SiteAdapter {
                    site,
                    paginated: false,
                    canvas_surface: false,
                    counter_selector: "div.page-chapter img",
                    advance_script: "",
                    surface_selector: "div.page-chapter img",
                    image_selector: "div.page-chapter img",
                    probe_selector: "div.page-chapter img",
                    obstruction_selectors: hidden,
                    retry_policy: RetryPolicy::transient_default(),
                }
            },
        }
    }
}

/// The in-page script that hides the first element matching `selector`.
pub open spec fn hide_script_text(selector: Seq<char>) -> Seq<char> {
    "var element = document.querySelector('"@ + selector
        + "'); if (element) { element.style.display = 'none'; }"@
}

/// The in-page script that hides the first element matching `selector`, if any.
pub fn hide_script(selector: &str) -> (r: String)
    ensures
        r@ == hide_script_text(selector@),
{
    let mut r = String::from_str("var element = document.querySelector('");
    r.append(selector);
    r.append("'); if (element) { element.style.display = 'none'; }");
    r
}

pub open spec fn is_digit(c: char) -> bool {
    '0' <= c && c <= '9'
}

/// The value of a sequence of decimal digits.
pub open spec fn digits_value(d: Seq<char>) -> nat
    decreases d.len(),
{
    if d.len() == 0 {
        0
    } else {
        digits_value(d.drop_last()) * 10 + (d.last() as u32 - '0' as u32) as nat
    }
}

/// The digits of a counter text: after one optional `+`.
pub open spec fn count_digits(s: Seq<char>) -> Seq<char> {
    if s.len() > 0 && s[0] == '+' {
        s.drop_first()
    } else {
        s
    }
}

/// The panel count a counter text gives: one or more decimal digits, after
/// an optional `+`, worth at most `u16::MAX`.
pub open spec fn parsed_count(s: Seq<char>) -> Option<nat> {
    let d = count_digits(s);
    if d.len() > 0 && (forall|i: int| 0 <= i < d.len() ==> is_digit(#[trigger] d[i])) && digits_value(
        d,
    ) <= u16::MAX {
        Some(digits_value(d))
    } else {
        None
    }
}

/// Reads the panel count from the counter's text.
pub fn parse_page_count(text: &str) -> (r: Option<u16>)
    ensures
        r matches Some(v) ==> parsed_count(text@) == Some(v as nat),
        r is None ==> parsed_count(text@) is None,
{
    let n = text.unicode_len();
    let start: usize = if n > 0 && text.get_char(0) == '+' {
        1
    } else {
        0
    };
    let ghost d = count_digits(text@);
    assert(d =~= text@.subrange(start as int, n as int));
    if start == n {
        return None;
    }
    let mut value: u32 = 0;
    let mut big = false;
    let mut i: usize = start;
    while i < n
        invariant
            n == text@.len(),
            start <= i <= n,
            d == text@.subrange(start as int, n as int),
            d == count_digits(text@),
            forall|k: int| start <= k < i ==> is_digit(#[trigger] text@[k]),
            !big ==> value as nat == digits_value(text@.subrange(start as int, i as int)),
            !big ==> value <= u16::MAX,
            big ==> digits_value(text@.subrange(start as int, i as int)) > u16::MAX,
        decreases n - i,
    {
        let c = text.get_char(i);
        if !('0' <= c && c <= '9') {
            assert(!is_digit(d[i - start]));
            return None;
        }
        let ghost prefix = text@.subrange(start as int, i + 1);
        assert(prefix.drop_last() =~= text@.subrange(start as int, i as int));
        if !big {
            let next = value * 10 + (c as u32 - '0' as u32);
            if next > 65535 {
                big = true;
            } else {
                value = next;
            }
        }
        i = i + 1;
    }
    assert(text@.subrange(start as int, n as int) == d);
    if big {
        None
    } else {
        Some(value as u16)
    }
}

} // verus!
