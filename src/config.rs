use vstd::prelude::*;

use crate::error::{Error, ErrorView};
use crate::text::{is_blank, is_space, parse_u64, text_is_blank, u64_text};
use crate::url_parts::{is_absolute_url, is_discord_webhook, is_webhook_url, url_parses};

verus! {

/// Seconds an availability check may take when the file names none.
pub const DEFAULT_TIMEOUT_SECS: u64 = 30;

/// Seconds between two check cycles when the file names none.
pub const DEFAULT_CHECK_INTERVAL_SECS: u64 = 300;

/// The validated runtime configuration.
#[derive(Debug)]
pub struct Config {
    pub config: ConfigOptions,
    pub sites: SiteList,
}

/// The scalar settings of a validated configuration.
#[derive(Debug)]
pub struct ConfigOptions {
    pub timeout_secs: u64,
    pub check_interval_secs: u64,
    pub webhook_url: Option<String>,
    pub discord_id: Option<u64>,
}

/// The monitored addresses, in the order in which they are checked.
#[derive(Debug)]
pub struct SiteList {
    pub urls: Vec<String>,
}

/// The configuration as the file gives it, with defaults for what it leaves out.
#[derive(Debug)]
pub struct RawConfig {
    pub config: RawConfigOptions,
    pub sites: SiteList,
}

/// The scalar settings as the file gives them.
#[derive(Debug)]
pub struct RawConfigOptions {
    pub timeout_secs: u64,
    pub check_interval_secs: u64,
    pub webhook_url: Option<String>,
    pub discord_id: Option<u64>,
}

/// Values from the process environment that take precedence over the file.
#[derive(Debug)]
pub struct Overrides {
    pub webhook_url: Option<String>,
    pub discord_id: Option<String>,
}

/// The settings of a configuration, raw or validated, as mathematical values.
pub struct Settings {
    pub timeout_secs: u64,
    pub check_interval_secs: u64,
    pub webhook_url: Option<Seq<char>>,
    pub discord_id: Option<u64>,
    pub urls: Seq<Seq<char>>,
}

pub struct OverridesView {
    pub webhook_url: Option<Seq<char>>,
    pub discord_id: Option<Seq<char>>,
}

impl View for Config {
    type V = Settings;

    open spec fn view(&self) -> Settings {
        Settings {
            timeout_secs: self.config.timeout_secs,
            check_interval_secs: self.config.check_interval_secs,
            webhook_url: self.config.webhook_url.deep_view(),
            discord_id: self.config.discord_id,
            urls: self.sites.urls.deep_view(),
        }
    }
}

impl View for RawConfig {
    type V = Settings;

    open spec fn view(&self) -> Settings {
        Settings {
            timeout_secs: self.config.timeout_secs,
            check_interval_secs: self.config.check_interval_secs,
            webhook_url: self.config.webhook_url.deep_view(),
            discord_id: self.config.discord_id,
            urls: self.sites.urls.deep_view(),
        }
    }
}

impl View for Overrides {
    type V = OverridesView;

    open spec fn view(&self) -> OverridesView {
        OverridesView {
            webhook_url: self.webhook_url.deep_view(),
            discord_id: self.discord_id.deep_view(),
        }
    }
}

/// A text counts as given when it is present and not blank.
pub open spec fn given(v: Option<Seq<char>>) -> Option<Seq<char>> {
    match v {
        Some(s) => if is_blank(s) {
            None
        } else {
            Some(s)
        },
        None => None,
    }
}

/// The webhook address in force: the environment's if given, else the file's
/// if given, else none.
pub open spec fn chosen_webhook(file: Option<Seq<char>>, env: Option<Seq<char>>) -> Option<
    Seq<char>,
> {
    if given(env) is Some {
        given(env)
    } else {
        given(file)
    }
}

/// The Discord id in force: the environment's if it reads as a `u64`, else
/// the file's.
pub open spec fn chosen_discord_id(file: Option<u64>, env: Option<Seq<char>>) -> Option<u64> {
    match env {
        Some(e) => match u64_text(e) {
            Some(id) => Some(id),
            None => file,
        },
        None => file,
    }
}

pub open spec fn interval_ok(v: u64) -> bool {
    1 <= v < 86400
}

pub open spec fn all_urls_parse(urls: Seq<Seq<char>>) -> bool {
    forall|i: int| 0 <= i < urls.len() ==> url_parses(#[trigger] urls[i])
}

/// `i` is the position of the first address that is not an absolute URL.
pub open spec fn is_first_bad(urls: Seq<Seq<char>>, i: int) -> bool {
    0 <= i < urls.len() && !url_parses(urls[i]) && forall|j: int|
        0 <= j < i ==> url_parses(#[trigger] urls[j])
}

/// What a validated configuration satisfies.
pub open spec fn settings_valid(c: Settings) -> bool {
    c.timeout_secs > 0 && interval_ok(c.check_interval_secs) && (c.webhook_url matches Some(
        w,
    ) ==> is_discord_webhook(w)) && all_urls_parse(c.urls)
}

/// The outcome of resolving a raw configuration under the given overrides:
/// the first rule that fails, in the order timeout, interval, webhook, sites;
/// else the validated settings.
pub open spec fn resolution(raw: Settings, env: OverridesView) -> Result<Settings, ErrorView> {
    let webhook = chosen_webhook(raw.webhook_url, env.webhook_url);
    if raw.timeout_secs == 0 {
        Err(ErrorView::Timeout)
    } else if !interval_ok(raw.check_interval_secs) {
        Err(ErrorView::CheckInterval(raw.check_interval_secs))
    } else if webhook matches Some(w) && !is_discord_webhook(w) {
        Err(ErrorView::WebhookUrl)
    } else if !all_urls_parse(raw.urls) {
        Err(ErrorView::SiteUrl(raw.urls[choose|i: int| is_first_bad(raw.urls, i)]))
    } else {
        Ok(
            Settings {
                timeout_secs: raw.timeout_secs,
                check_interval_secs: raw.check_interval_secs,
                webhook_url: webhook,
                discord_id: chosen_discord_id(raw.discord_id, env.discord_id),
                urls: raw.urls,
            },
        )
    }
}

proof fn lemma_first_bad_unique(urls: Seq<Seq<char>>, i: int, j: int)
    requires
        is_first_bad(urls, i),
        is_first_bad(urls, j),
    ensures
        i == j,
{
    if i < j {
        assert(url_parses(urls[i]));
    } else if j < i {
        assert(url_parses(urls[j]));
    }
}

proof fn lemma_blank_is_no_number(s: Seq<char>)
    requires
        is_blank(s),
    ensures
        u64_text(s) is None,
{
    if s.len() > 0 {
        assert(is_space(s[0]));
    }
}

/// Keeps a text only when it is given (present and not blank).
fn given_text(v: Option<String>) -> (r: Option<String>)
    ensures
        r.deep_view() == given(v.deep_view()),
{
    match v {
        Some(s) => {
            if text_is_blank(s.as_str()) {
                None
            } else {
                Some(s)
            }
        },
        None => None,
    }
}

impl Config {
    /// Accepts any timeout but zero.
    pub fn validate_timeout(timeout_secs: u64) -> (r: Result<u64, Error>)
        ensures
            r is Err <==> timeout_secs == 0,
            r matches Ok(t) ==> t == timeout_secs,
            r matches Err(e) ==> e@ == ErrorView::Timeout,
    {
        if timeout_secs == 0 {
            return Err(Error::Timeout);
        }
        Ok(timeout_secs)
    }

    /// Accepts a check interval from 1 to 86399 seconds.
    pub fn validate_check_interval(check_interval_secs: u64) -> (r: Result<u64, Error>)
        ensures
            r is Err <==> !interval_ok(check_interval_secs),
            r matches Ok(v) ==> v == check_interval_secs,
            r matches Err(e) ==> e@ == ErrorView::CheckInterval(check_interval_secs),
    {
        if !(1 <= check_interval_secs && check_interval_secs < 86400) {
            return Err(Error::CheckInterval(check_interval_secs));
        }
        Ok(check_interval_secs)
    }

    /// Picks the webhook address in force and checks that it is a Discord
    /// webhook. An address that is absent or blank in both places is no error:
    /// the webhook is optional. The address is kept exactly as given.
    pub fn validate_webhook_url(raw_url: Option<String>, env_url: Option<String>) -> (r: Result<
        Option<String>,
        Error,
    >)
        ensures
            r is Err <==> (chosen_webhook(raw_url.deep_view(), env_url.deep_view()) matches Some(
                w,
            ) && !is_discord_webhook(w)),
            r matches Ok(w) ==> w.deep_view() == chosen_webhook(
                raw_url.deep_view(),
                env_url.deep_view(),
            ),
            r matches Err(e) ==> e@ == ErrorView::WebhookUrl,
    {
        let from_env = given_text(env_url);
        let webhook = if from_env.is_some() {
            from_env
        } else {
            given_text(raw_url)
        };
        match webhook {
            Some(url) => {
                if !is_webhook_url(url.as_str()) {
                    return Err(Error::WebhookUrl);
                }
                Ok(Some(url))
            },
            None => Ok(None),
        }
    }

    /// Picks the Discord id in force. An environment value that does not read
    /// as a `u64` counts as absent.
    pub fn validate_discord_id(raw_id: Option<u64>, env_id: Option<String>) -> (r: Option<u64>)
        ensures
            r == chosen_discord_id(raw_id, env_id.deep_view()),
    {
        match env_id {
            Some(e) => match parse_u64(e.as_str()) {
                Some(id) => Some(id),
                None => raw_id,
            },
            None => raw_id,
        }
    }

    /// Checks that every monitored address is an absolute URL, and names the
    /// first one that is not.
    pub fn validate_urls(urls: &Vec<String>) -> (r: Result<(), Error>)
        ensures
            r is Ok <==> all_urls_parse(urls.deep_view()),
            r matches Err(e) ==> exists|i: int|
                is_first_bad(urls.deep_view(), i) && e@ == ErrorView::SiteUrl(
                    urls.deep_view()[i],
                ),
    {
        let ghost us = urls.deep_view();
        let mut i: usize = 0;
        while i < urls.len()
            invariant
                us == urls.deep_view(),
                i <= urls.len(),
                forall|j: int| 0 <= j < i ==> url_parses(#[trigger] us[j]),
            decreases urls.len() - i,
        {
            if !is_absolute_url(urls[i].as_str()) {
                assert(is_first_bad(us, i as int));
                return Err(Error::SiteUrl(urls[i].clone()));
            }
            i = i + 1;
        }
        Ok(())
    }

    /// Resolves a raw configuration under the given overrides into a
    /// validated one, or names the first rule that it breaks.
    pub fn resolve(raw: RawConfig, env: Overrides) -> (r: Result<Config, Error>)
        ensures
            match r {
                Ok(c) => resolution(raw@, env@) == Ok::<Settings, ErrorView>(c@),
                Err(e) => resolution(raw@, env@) == Err::<Settings, ErrorView>(e@),
            },
            r matches Ok(c) ==> c.valid(),
    {
        let ghost raw_view = raw@;
        let ghost env_view = env@;
        let timeout_secs = match Config::validate_timeout(raw.config.timeout_secs) {
            Ok(t) => t,
            Err(e) => {
                return Err(e);
            },
        };
        let check_interval_secs = match Config::validate_check_interval(
            raw.config.check_interval_secs,
        ) {
            Ok(v) => v,
            Err(e) => {
                return Err(e);
            },
        };
        let webhook_url = match Config::validate_webhook_url(raw.config.webhook_url, env.webhook_url) {
            Ok(w) => w,
            Err(e) => {
                return Err(e);
            },
        };
        let discord_id = Config::validate_discord_id(raw.config.discord_id, env.discord_id);
        match Config::validate_urls(&raw.sites.urls) {
            Ok(()) => {},
            Err(e) => {
                proof {
                    let i = choose|i: int|
                        is_first_bad(raw_view.urls, i) && e@ == ErrorView::SiteUrl(
                            raw_view.urls[i],
                        );
                    let j = choose|j: int| is_first_bad(raw_view.urls, j);
                    lemma_first_bad_unique(raw_view.urls, i, j);
                }
                return Err(e);
            },
        }
        let c = Config {
            config: ConfigOptions { timeout_secs, check_interval_secs, webhook_url, discord_id },
            sites: raw.sites,
        };
        assert(c@ =~= resolution(raw_view, env_view)->Ok_0);
        Ok(c)
    }

    /// The rules that a validated configuration meets.
    pub open spec fn valid(&self) -> bool {
        settings_valid(self@)
    }
}

/// A zero timeout makes resolution fail with the timeout error; any other
/// timeout never causes that error.
pub proof fn timeout_rule(raw: Settings, env: OverridesView)
    ensures
        raw.timeout_secs == 0 ==> resolution(raw, env) == Err::<Settings, ErrorView>(
            ErrorView::Timeout,
        ),
        raw.timeout_secs >= 1 ==> resolution(raw, env) != Err::<Settings, ErrorView>(
            ErrorView::Timeout,
        ),
{
}

/// A check interval outside `1..=86399` makes resolution fail; an interval
/// within it never causes the interval error.
pub proof fn check_interval_rule(raw: Settings, env: OverridesView)
    ensures
        !(1 <= raw.check_interval_secs <= 86399) ==> resolution(raw, env) is Err,
        1 <= raw.check_interval_secs <= 86399 ==> !(resolution(raw, env) matches Err(
            ErrorView::CheckInterval(_),
        )),
{
}

/// Environment values win over file values when they are given; the file
/// values apply when the environment's are absent or blank.
pub proof fn overrides_take_precedence(raw: Settings, env: OverridesView)
    ensures
        resolution(raw, env) matches Ok(c) ==> {
            &&& given(env.webhook_url) is Some ==> c.webhook_url == env.webhook_url
            &&& given(env.webhook_url) is None ==> c.webhook_url == given(raw.webhook_url)
            &&& (env.discord_id is Some && u64_text(env.discord_id->0) is Some) ==> c.discord_id
                == u64_text(env.discord_id->0)
            &&& (env.discord_id is None || is_blank(env.discord_id->0)) ==> c.discord_id
                == raw.discord_id
        },
{
    if env.discord_id is Some && is_blank(env.discord_id->0) {
        lemma_blank_is_no_number(env.discord_id->0);
    }
}

/// Resolution depends on the raw configuration and the overrides alone:
/// equal inputs give equal outcomes.
pub proof fn resolution_is_deterministic(
    raw1: Settings,
    env1: OverridesView,
    raw2: Settings,
    env2: OverridesView,
)
    requires
        raw1 == raw2,
        env1 == env2,
    ensures
        resolution(raw1, env1) == resolution(raw2, env2),
{
}

impl Default for RawConfigOptions {
    fn default() -> (r: RawConfigOptions)
        ensures
            r.timeout_secs == DEFAULT_TIMEOUT_SECS,
            r.check_interval_secs == DEFAULT_CHECK_INTERVAL_SECS,
            r.webhook_url is None,
            r.discord_id is None,
    {
        RawConfigOptions {
            timeout_secs: DEFAULT_TIMEOUT_SECS,
            check_interval_secs: DEFAULT_CHECK_INTERVAL_SECS,
            webhook_url: None,
            discord_id: None,
        }
    }
}

impl Default for SiteList {
    fn default() -> (r: SiteList)
        ensures
            r.urls@.len() == 0,
    {
        SiteList { urls: Vec::new() }
    }
}

impl Default for RawConfig {
    fn default() -> (r: RawConfig)
        ensures
            r@ == (Settings {
                timeout_secs: DEFAULT_TIMEOUT_SECS,
                check_interval_secs: DEFAULT_CHECK_INTERVAL_SECS,
                webhook_url: None,
                discord_id: None,
                urls: Seq::empty(),
            }),
    {
        let r = RawConfig { config: RawConfigOptions::default(), sites: SiteList::default() };
        assert(r.sites.urls.deep_view() =~= Seq::empty());
        r
    }
}

impl Default for Overrides {
    fn default() -> (r: Overrides)
        ensures
            r.webhook_url is None,
            r.discord_id is None,
    {
        Overrides { webhook_url: None, discord_id: None }
    }
}

} // verus!
