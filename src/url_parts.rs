use vstd::prelude::*;

use crate::text::{all_digits, has_prefix, is_digit};

verus! {

/// Whether `url::Url::parse` accepts the text as an absolute URL.
pub uninterp spec fn url_parses(s: Seq<char>) -> bool;

/// The scheme that `url::Url::scheme` reports for the parsed text.
pub uninterp spec fn url_scheme_of(s: Seq<char>) -> Seq<char>;

/// The host that `url::Url::host_str` reports for the parsed text.
pub uninterp spec fn url_host_of(s: Seq<char>) -> Option<Seq<char>>;

/// The path that `url::Url::path` reports for the parsed text.
pub uninterp spec fn url_path_of(s: Seq<char>) -> Seq<char>;

/// The components of a parsed URL that the configuration rules read.
#[derive(Debug)]
pub struct UrlParts {
    pub scheme: String,
    pub host: Option<String>,
    pub path: String,
}

/// Relies on `url::Url::parse` to decide whether the text is an absolute
/// URL, and on `Url::scheme`, `Url::host_str` and `Url::path` for the
/// components of the parsed value. Each depends on the text alone.
#[verifier::external_body]
pub(crate) fn parse_url(s: &str) -> (r: Option<UrlParts>)
    ensures
        r is Some == url_parses(s@),
        r matches Some(p) ==> p.scheme@ == url_scheme_of(s@) && p.host.deep_view()
            == url_host_of(s@) && p.path@ == url_path_of(s@),
{
    url::Url::parse(s).ok().map(
        |u| UrlParts {
            scheme: u.scheme().to_string(),
            host: u.host_str().map(|h| h.to_string()),
            path: u.path().to_string(),
        },
    )
}

pub open spec fn no_slash(s: Seq<char>) -> bool {
    forall|i: int| 0 <= i < s.len() ==> #[trigger] s[i] != '/'
}

/// The part of a webhook path after the fixed prefix: a numeric webhook id,
/// one slash, and a non-empty token that holds no further slash.
pub open spec fn webhook_segments(r: Seq<char>) -> bool {
    exists|k: int|
        0 < k && k + 1 < r.len() && #[trigger] r[k] == '/' && all_digits(r.subrange(0, k))
            && no_slash(r.subrange(k + 1, r.len() as int))
}

pub open spec fn webhook_prefix() -> Seq<char> {
    "/api/webhooks/"@
}

/// A Discord webhook path: `/api/webhooks/<id>/<token>`.
pub open spec fn webhook_path_ok(p: Seq<char>) -> bool {
    let pre = webhook_prefix();
    pre.len() <= p.len() && p.subrange(0, pre.len() as int) == pre && webhook_segments(
        p.subrange(pre.len() as int, p.len() as int),
    )
}

/// The rule for a webhook address, over the components of a parsed URL.
pub open spec fn webhook_parts_ok(
    scheme: Seq<char>,
    host: Option<Seq<char>>,
    path: Seq<char>,
) -> bool {
    scheme == "https"@ && host == Some("discord.com"@) && webhook_path_ok(path)
}

/// A text that is a Discord webhook address.
pub open spec fn is_discord_webhook(s: Seq<char>) -> bool {
    url_parses(s) && webhook_parts_ok(url_scheme_of(s), url_host_of(s), url_path_of(s))
}

proof fn lemma_split_is_unique(r: Seq<char>, k: int, k2: int)
    requires
        0 <= k <= r.len(),
        all_digits(r.subrange(0, k)),
        k < r.len() ==> !is_digit(r[k]),
        0 < k2 < r.len(),
        r[k2] == '/',
        all_digits(r.subrange(0, k2)),
    ensures
        k2 == k,
{
    if k2 < k {
        assert(r.subrange(0, k)[k2] == r[k2]);
    } else if k2 > k {
        assert(r.subrange(0, k2)[k] == r[k]);
    }
}

/// The length of the run of decimal digits that `r` starts with.
fn digit_run(r: &str) -> (k: usize)
    ensures
        k <= r@.len(),
        all_digits(r@.subrange(0, k as int)),
        k < r@.len() ==> !is_digit(r@[k as int]),
{
    let n = r.unicode_len();
    let mut k: usize = 0;
    while k < n
        invariant
            n == r@.len(),
            k <= n,
            all_digits(r@.subrange(0, k as int)),
        decreases n - k,
    {
        let c = r.get_char(k);
        if c < '0' || c > '9' {
            return k;
        }
        assert(r@.subrange(0, k + 1)[k as int] == c);
        assert(all_digits(r@.subrange(0, k + 1))) by {
            assert forall|i: int| 0 <= i < k + 1 implies is_digit(
                #[trigger] r@.subrange(0, k + 1)[i],
            ) by {
                if i < k {
                    assert(r@.subrange(0, k + 1)[i] == r@.subrange(0, k as int)[i]);
                }
            }
        }
        k = k + 1;
    }
    k
}

fn segments_ok(r: &str) -> (b: bool)
    ensures
        b == webhook_segments(r@),
{
    let n = r.unicode_len();
    let k = digit_run(r);
    if k == 0 || k >= n || r.get_char(k) != '/' || k + 1 >= n {
        proof {
            if webhook_segments(r@) {
                let k2 = choose|k2: int|
                    0 < k2 && k2 + 1 < r@.len() && #[trigger] r@[k2] == '/' && all_digits(
                        r@.subrange(0, k2),
                    ) && no_slash(r@.subrange(k2 + 1, r@.len() as int));
                lemma_split_is_unique(r@, k as int, k2);
            }
        }
        return false;
    }
    let mut j: usize = k + 1;
    while j < n
        invariant
            n == r@.len(),
            0 < k < n,
            k + 1 <= j <= n,
            r@[k as int] == '/',
            all_digits(r@.subrange(0, k as int)),
            forall|t: int| k + 1 <= t < j ==> #[trigger] r@[t] != '/',
        decreases n - j,
    {
        if r.get_char(j) == '/' {
            proof {
                if webhook_segments(r@) {
                    let k2 = choose|k2: int|
                        0 < k2 && k2 + 1 < r@.len() && #[trigger] r@[k2] == '/' && all_digits(
                            r@.subrange(0, k2),
                        ) && no_slash(r@.subrange(k2 + 1, r@.len() as int));
                    lemma_split_is_unique(r@, k as int, k2);
                    assert(r@.subrange(k2 + 1, r@.len() as int)[j - k2 - 1] == '/');
                }
            }
            return false;
        }
        j = j + 1;
    }
    assert(no_slash(r@.subrange(k + 1, n as int))) by {
        assert forall|i: int| 0 <= i < n - k - 1 implies #[trigger] r@.subrange(
            k + 1,
            n as int,
        )[i] != '/' by {
            assert(r@.subrange(k + 1, n as int)[i] == r@[k + 1 + i]);
        }
    }
    assert(r@[k as int] == '/');
    true
}

/// Tells whether a URL path has the form `/api/webhooks/<id>/<token>`.
pub fn is_webhook_path(p: &str) -> (b: bool)
    ensures
        b == webhook_path_ok(p@),
{
    let prefix = "/api/webhooks/";
    if !has_prefix(p, prefix) {
        return false;
    }
    let n = p.unicode_len();
    let m = prefix.unicode_len();
    let rest = p.substring_char(m, n);
    segments_ok(rest)
}

impl UrlParts {
    /// Tells whether these components make a Discord webhook address:
    /// scheme `https`, host `discord.com`, and a webhook path.
    pub fn is_discord_webhook(&self) -> (b: bool)
        ensures
            b == webhook_parts_ok(self.scheme@, self.host.deep_view(), self.path@),
    {
        let https = String::from_str("https");
        if self.scheme != https {
            return false;
        }
        let discord = String::from_str("discord.com");
        match &self.host {
            Some(h) => {
                if *h != discord {
                    return false;
                }
            },
            None => {
                return false;
            },
        }
        is_webhook_path(self.path.as_str())
    }
}

/// Tells whether the text is an absolute URL.
pub fn is_absolute_url(s: &str) -> (b: bool)
    ensures
        b == url_parses(s@),
{
    parse_url(s).is_some()
}

/// Tells whether the text is a Discord webhook address.
pub fn is_webhook_url(s: &str) -> (b: bool)
    ensures
        b == is_discord_webhook(s@),
{
    match parse_url(s) {
        Some(parts) => parts.is_discord_webhook(),
        None => false,
    }
}

} // verus!
