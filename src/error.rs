use vstd::prelude::*;

verus! {

/// Why a configuration was refused. Each rule has a variant of its own,
/// so that callers can tell the failures apart.
#[derive(Debug)]
pub enum Error {
    /// `timeout_secs` is zero.
    Timeout,
    /// `check_interval_secs` lies outside `1..86400`; it carries the value.
    CheckInterval(u64),
    /// The webhook address is not a Discord webhook. The value is not kept:
    /// it holds the webhook's secret token.
    WebhookUrl,
    /// A monitored address is not an absolute URL; it carries the address.
    SiteUrl(String),
}

/// `Error` with its text as a sequence of characters.
pub enum ErrorView {
    Timeout,
    CheckInterval(u64),
    WebhookUrl,
    SiteUrl(Seq<char>),
}

impl View for Error {
    type V = ErrorView;

    open spec fn view(&self) -> ErrorView {
        match self {
            Error::Timeout => ErrorView::Timeout,
            Error::CheckInterval(v) => ErrorView::CheckInterval(*v),
            Error::WebhookUrl => ErrorView::WebhookUrl,
            Error::SiteUrl(u) => ErrorView::SiteUrl(u@),
        }
    }
}

} // verus!
