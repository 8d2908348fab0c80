//! Command-line values and the validation of `--url` arguments.
use crate::error::{ArgError, ArgErrorView};
use crate::style::{style_text, styled};
use crate::text::{
    contains, find, find_from, lower_of, occurs_at, replace_char, replaced, rfind_char,
    rfind_char_before, seq_contains, starts_with, to_lowercase, trim, trimmed,
};
use vstd::prelude::*;

verus! {

/// The reader sites that the library can acquire panels from.
#[derive(Clone, Copy, Debug, PartialEq, Eq, Structural)]
pub enum SupportedSites {
    MangaReader,
    MangaGun,
    RawManga,
}

impl Default for SupportedSites {
    fn default() -> (r: SupportedSites)
        ensures
            r == SupportedSites::MangaReader,
    {
        SupportedSites::MangaReader
    }
}

/// A validated chapter URL with the site it belongs to and the title read from it.
#[derive(Clone, Debug)]
pub struct Url {
    pub url: String,
    pub title: Option<String>,
    pub site: SupportedSites,
}

pub struct UrlView {
    pub url: Seq<char>,
    pub title: Option<Seq<char>>,
    pub site: SupportedSites,
}

pub open spec fn opt_view(o: Option<String>) -> Option<Seq<char>> {
    match o {
        Some(s) => Some(s@),
        None => None,
    }
}

impl View for Url {
    type V = UrlView;

    open spec fn view(&self) -> UrlView {
        UrlView { url: self.url@, title: opt_view(self.title), site: self.site }
    }
}

/// How much the program reports while it runs.
#[derive(Clone, Copy, Debug, PartialEq, Eq, Structural)]
pub enum LogLevel {
    Normal,
    Full,
    Verbose,
    Quiet,
}

/// The command line: the chapter URLs, the panel indexes to restrict to, and
/// the directory that downloads go to.
pub struct Cli {
    pub urls: Vec<String>,
    pub indexes: Option<Vec<usize>>,
    pub input_path: Option<String>,
    pub log: LogLevel,
}

/// `s` with `https://` in front, unless it already begins with it.
pub open spec fn with_scheme(s: Seq<char>) -> Seq<char> {
    if occurs_at(s, "https://"@, 0) {
        s
    } else {
        "https://"@ + s
    }
}

pub open spec fn invalid_url(url: Seq<char>, reason: Seq<char>, example: Seq<char>) -> ArgErrorView {
    ArgErrorView::InvalidUrl { url, reason: styled(reason), example: styled(example) }
}

/// What validation makes of a URL that already has its scheme and is in lower case.
pub open spec fn url_verdict(u: Seq<char>) -> Result<Seq<char>, ArgErrorView> {
    if !vstd::utf8::is_ascii_chars(u) {
        Err(
            invalid_url(
                u,
                "URL is not valid ASCII"@,
                "mangareader.to/read/vagabond-4/ja/chapter-6"@,
            ),
        )
    } else if u.len() == 0 {
        Err(invalid_url(u, "Empty string"@, "*.com | *.to"@))
    } else if !(seq_contains(u, ".to"@) || seq_contains(u, ".com"@) || seq_contains(u, ".net"@)) {
        Err(
            invalid_url(
                u,
                "URL is missing or has an invalid top-level domain"@,
                "*.com | *.to | *.net"@,
            ),
        )
    } else if !(seq_contains(u, "mangareader.to"@) || seq_contains(u, "mangagun.net"@)
        || seq_contains(u, "rawmanga"@)) {
        Err(ArgErrorView::WebsiteNotSupported(u))
    } else if seq_contains(u, "mangareader.to"@) && !seq_contains(u, "/read"@) {
        Err(
            invalid_url(
                u,
                "mangareader URL is missing /read"@,
                "mangareader.to/read/vagabond-4/ja/chapter-6"@,
            ),
        )
    } else {
        Ok(u)
    }
}

/// The site a URL belongs to, by the first site name found in it.
pub open spec fn site_of(u: Seq<char>) -> Option<SupportedSites> {
    if seq_contains(u, "mangareader"@) {
        Some(SupportedSites::MangaReader)
    } else if seq_contains(u, "mangagun"@) {
        Some(SupportedSites::MangaGun)
    } else if seq_contains(u, "rawmanga"@) {
        Some(SupportedSites::RawManga)
    } else {
        None
    }
}

/// The title a URL gives for its site: after `/read/` with `/` turned into `-`;
/// after the last `/`; or after `/manga/` with `/` turned into `_`, trimmed.
pub open spec fn title_of(u: Seq<char>, site: SupportedSites) -> Option<Seq<char>> {
    match site {
        SupportedSites::MangaReader => match find_from(u, "/read/"@, 0) {
            Some(k) => Some(replaced(u.subrange(k + "/read/"@.len(), u.len() as int), '/', '-')),
            None => None,
        },
        SupportedSites::MangaGun => match rfind_char_before(u, '/', u.len() as int) {
            Some(k) => Some(u.subrange(k + 1, u.len() as int)),
            None => None,
        },
        SupportedSites::RawManga => match find_from(u, "/manga/"@, 0) {
            Some(k) => Some(
                trimmed(replaced(u.subrange(k + "/manga/"@.len(), u.len() as int), '/', '_')),
            ),
            None => None,
        },
    }
}

/// The `Url` made of a URL that has its scheme and is in lower case.
pub open spec fn parse_lowered(u: Seq<char>) -> Result<UrlView, ArgErrorView> {
    match url_verdict(u) {
        Err(e) => Err(e),
        Ok(v) => match site_of(v) {
            Some(site) => Ok(UrlView { url: v, title: title_of(v, site), site }),
            None => Err(ArgErrorView::WebsiteNotSupported(v)),
        },
    }
}

/// The `Url` made of a `--url` argument as given.
pub open spec fn parse_url(raw: Seq<char>) -> Result<UrlView, ArgErrorView> {
    parse_lowered(lower_of(with_scheme(raw)))
}

/// The URLs made of the arguments, or the error of the first one that fails.
pub open spec fn check_all(raws: Seq<Seq<char>>) -> Result<Seq<UrlView>, ArgErrorView>
    decreases raws.len(),
{
    if raws.len() == 0 {
        Ok(Seq::empty())
    } else {
        match check_all(raws.drop_last()) {
            Err(e) => Err(e),
            Ok(v) => match parse_url(raws.last()) {
                Err(e) => Err(e),
                Ok(u) => Ok(v.push(u)),
            },
        }
    }
}

pub open spec fn string_result_view(r: Result<String, ArgError>) -> Result<Seq<char>, ArgErrorView> {
    match r {
        Ok(s) => Ok(s@),
        Err(e) => Err(e@),
    }
}

pub open spec fn url_result_view(r: Result<Url, ArgError>) -> Result<UrlView, ArgErrorView> {
    match r {
        Ok(u) => Ok(u@),
        Err(e) => Err(e@),
    }
}

pub open spec fn urls_result_view(r: Result<Vec<Url>, ArgError>) -> Result<
    Seq<UrlView>,
    ArgErrorView,
> {
    match r {
        Ok(v) => Ok(v@.map_values(|u: Url| u@)),
        Err(e) => Err(e@),
    }
}

proof fn lemma_check_all_err_stays(raws: Seq<Seq<char>>, i: int, j: int)
    requires
        0 <= i <= j <= raws.len(),
        check_all(raws.subrange(0, i)) is Err,
    ensures
        check_all(raws.subrange(0, j)) == check_all(raws.subrange(0, i)),
    decreases j - i,
{
    if j > i {
        lemma_check_all_err_stays(raws, i, j - 1);
        assert(raws.subrange(0, j).drop_last() =~= raws.subrange(0, j - 1));
    }
}

fn invalid(url: String, reason: &str, example: &str) -> (r: ArgError)
    ensures
        r@ == invalid_url(url@, reason@, example@),
{
    ArgError::InvalidUrl { url, reason: style_text(reason), example: style_text(example) }
}

impl Url {
    /// Validates a URL that already has its scheme and is in lower case.
    pub fn check_lowered_url(url: String) -> (r: Result<String, ArgError>)
        ensures
            string_result_view(r) == url_verdict(url@),
    {
        if !url.is_ascii() {
            return Err(
                invalid(url, "URL is not valid ASCII", "mangareader.to/read/vagabond-4/ja/chapter-6"),
            );
        }
        if url.as_str().is_empty() {
            return Err(invalid(url, "Empty string", "*.com | *.to"));
        }
        let u = url.as_str();
        if !(contains(u, ".to") || contains(u, ".com") || contains(u, ".net")) {
            return Err(
                invalid(
                    url,
                    "URL is missing or has an invalid top-level domain",
                    "*.com | *.to | *.net",
                ),
            );
        }
        let reader = contains(u, "mangareader.to");
        if !(reader || contains(u, "mangagun.net") || contains(u, "rawmanga")) {
            return Err(ArgError::WebsiteNotSupported(url));
        }
        if reader && !contains(u, "/read") {
            return Err(
                invalid(
                    url,
                    "mangareader URL is missing /read",
                    "mangareader.to/read/vagabond-4/ja/chapter-6",
                ),
            );
        }
        Ok(url)
    }

    /// Puts `https://` in front of a URL that lacks it, lowers its case and validates it.
    pub fn check_url(url: String) -> (r: Result<String, ArgError>)
        ensures
            string_result_view(r) == url_verdict(lower_of(with_scheme(url@))),
    {
        let prefixed = if starts_with(url.as_str(), "https://") {
            url
        } else {
            let mut p = String::from_str("https://");
            p.append(url.as_str());
            p
        };
        let lowered = to_lowercase(prefixed.as_str());
        Url::check_lowered_url(lowered)
    }

    /// The site of a URL, or `WebsiteNotSupported`.
    pub fn is_site_supported(url: &str) -> (r: Result<SupportedSites, ArgError>)
        ensures
            r matches Ok(site) ==> site_of(url@) == Some(site),
            r matches Err(e) ==> site_of(url@) is None && e@ == ArgErrorView::WebsiteNotSupported(
                url@,
            ),
    {
        if contains(url, "mangareader") {
            Ok(SupportedSites::MangaReader)
        } else if contains(url, "mangagun") {
            Ok(SupportedSites::MangaGun)
        } else if contains(url, "rawmanga") {
            Ok(SupportedSites::RawManga)
        } else {
            Err(ArgError::WebsiteNotSupported(String::from_str(url)))
        }
    }

    /// The title that `url` gives on `site`.
    pub fn get_title_from_valid_url(url: &str, site: &SupportedSites) -> (r: Option<String>)
        ensures
            opt_view(r) == title_of(url@, *site),
    {
        let n = url.unicode_len();
        match site {
            SupportedSites::MangaReader => {
                let sep = "/read/";
                match find(url, sep) {
                    Some(k) => {
                        proof {
                            crate::text::lemma_find_contains(url@, sep@);
                        }
                        let rest = url.substring_char(k + sep.unicode_len(), n);
                        proof {
                            reveal_strlit("-");
                        }
                        Some(replace_char(rest, '/', "-"))
                    },
                    None => None,
                }
            },
            SupportedSites::MangaGun => match rfind_char(url, '/') {
                Some(k) => {
                    proof {
                        lemma_rfind_in_range(url@, '/', url@.len() as int);
                    }
                    Some(String::from_str(url.substring_char(k + 1, n)))
                },
                None => None,
            },
            SupportedSites::RawManga => {
                let sep = "/manga/";
                match find(url, sep) {
                    Some(k) => {
                        proof {
                            crate::text::lemma_find_contains(url@, sep@);
                        }
                        let rest = url.substring_char(k + sep.unicode_len(), n);
                        proof {
                            reveal_strlit("_");
                        }
                        let swapped = replace_char(rest, '/', "_");
                        Some(String::from_str(trim(swapped.as_str())))
                    },
                    None => None,
                }
            },
        }
    }

    /// Builds a `Url` from a URL that has its scheme and is in lower case.
    pub fn from_lowered(lowered: String) -> (r: Result<Url, ArgError>)
        ensures
            url_result_view(r) == parse_lowered(lowered@),
    {
        let valid = Url::check_lowered_url(lowered)?;
        let site = Url::is_site_supported(valid.as_str())?;
        let title = Url::get_title_from_valid_url(valid.as_str(), &site);
        Ok(Url { url: valid, title, site })
    }

    /// Builds a `Url` from a `--url` argument as given.
    pub fn from_str(s: &str) -> (r: Result<Url, ArgError>)
        ensures
            url_result_view(r) == parse_url(s@),
    {
        let prefixed = if starts_with(s, "https://") {
            String::from_str(s)
        } else {
            let mut p = String::from_str("https://");
            p.append(s);
            p
        };
        let lowered = to_lowercase(prefixed.as_str());
        Url::from_lowered(lowered)
    }
}

proof fn lemma_rfind_in_range(s: Seq<char>, c: char, end: int)
    requires
        0 <= end <= s.len(),
    ensures
        rfind_char_before(s, c, end) matches Some(k) ==> 0 <= k < end,
    decreases end,
{
    if end > 0 && s[end - 1] != c {
        lemma_rfind_in_range(s, c, end - 1);
    }
}

/// The characters of each URL argument.
pub open spec fn raw_urls(c: &Cli) -> Seq<Seq<char>> {
    c.urls@.map_values(|s: String| s@)
}

impl Cli {
    /// Validates every URL argument, in order, stopping at the first that fails.
    pub fn check_urls(&self) -> (r: Result<Vec<Url>, ArgError>)
        ensures
            urls_result_view(r) == check_all(raw_urls(self)),
    {
        let ghost raws = raw_urls(self);
        let n = self.urls.len();
        let mut urls: Vec<Url> = Vec::with_capacity(n);
        let mut i: usize = 0;
        assert(raws.subrange(0, 0) =~= Seq::<Seq<char>>::empty());
        assert(urls@.map_values(|u: Url| u@) =~= Seq::<UrlView>::empty());
        while i < n
            invariant
                n == self.urls@.len(),
                raws == raw_urls(self),
                i <= n,
                check_all(raws.subrange(0, i as int)) == Ok::<Seq<UrlView>, ArgErrorView>(
                    urls@.map_values(|u: Url| u@),
                ),
            decreases n - i,
        {
            let r = Url::from_str(self.urls[i].as_str());
            assert(raws.subrange(0, i + 1).drop_last() =~= raws.subrange(0, i as int));
            match r {
                Ok(u) => {
                    urls.push(u);
                    assert(urls@.map_values(|u: Url| u@) =~= check_all(
                        raws.subrange(0, i + 1),
                    )->Ok_0);
                },
                Err(e) => {
                    proof {
                        lemma_check_all_err_stays(raws, i + 1, n as int);
                        assert(raws.subrange(0, n as int) =~= raws);
                    }
                    return Err(e);
                },
            }
            i = i + 1;
        }
        assert(raws.subrange(0, n as int) =~= raws);
        Ok(urls)
    }
}

/// Validates the URLs of a parsed command line and hands it back when all are valid.
pub fn get_args(args: Cli) -> (r: Result<Cli, ArgError>)
    ensures
        r is Ok <==> check_all(raw_urls(&args)) is Ok,
        r matches Ok(a) ==> a == args,
        r matches Err(e) ==> check_all(raw_urls(&args)) == Err::<Seq<UrlView>, ArgErrorView>(e@),
{
    match args.check_urls() {
        Ok(_) => Ok(args),
        Err(e) => Err(e),
    }
}

} // verus!
