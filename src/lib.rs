//! Website downtime detection with Discord webhook alerts.
//!
//! The library holds the two parts of the monitor that make decisions:
//! the resolution of a raw configuration (file values merged with
//! environment overrides, then validated), and the monitoring worker,
//! a state machine that decides which check, alert, sleep or stop comes
//! next. Reading files, the environment and the network is left to the
//! program that drives them.

mod config;
mod error;
mod text;
mod url_parts;
mod worker;

pub use config::{
    check_interval_rule, chosen_discord_id, chosen_webhook, given, overrides_take_precedence,
    resolution, resolution_is_deterministic, settings_valid, timeout_rule, Config, ConfigOptions,
    Overrides, OverridesView, RawConfig, RawConfigOptions, Settings, SiteList,
    DEFAULT_CHECK_INTERVAL_SECS, DEFAULT_TIMEOUT_SECS,
};
pub use error::{Error, ErrorView};
pub use text::{decimal, is_blank, is_space, parse_u64, render_u64, text_is_blank, u64_text};
pub use url_parts::{
    is_absolute_url, is_discord_webhook, is_webhook_path, is_webhook_url, url_host_of,
    url_parses, url_path_of, url_scheme_of, webhook_parts_ok, webhook_path_ok, UrlParts,
};
pub use worker::{
    alert_message, alert_text, cancellation_stops, check_from, contains, down_result_alerts_once,
    each_result_moves_on, is_down, mention, transition, up_result_does_not_alert, Action,
    ActionView, Event, Monitor, Phase, Probe,
};
