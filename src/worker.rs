use vstd::prelude::*;

use crate::config::{Config, Settings};
use crate::text::{decimal, render_u64};

verus! {

/// Where the monitoring worker stands.
#[derive(PartialEq, Eq, Structural, Clone, Copy, Debug)]
pub enum Phase {
    /// Before a cycle: waits to learn whether cancellation was requested.
    Idle,
    /// Waits for the result of the check of the address at `index`.
    Checking { index: usize },
    /// Waits for the alert about the address at `index` to be sent.
    Notifying { index: usize },
    /// Waits for the interval to elapse, or for cancellation.
    Sleeping,
    /// Terminal.
    Stopped,
}

/// What one availability check observed.
#[derive(PartialEq, Eq, Structural, Clone, Copy, Debug)]
pub enum Probe {
    /// The server answered; `success` tells whether the status was 2xx.
    Responded { success: bool },
    /// No answer came: timeout, name resolution, refused connection, TLS.
    Unreachable,
    /// The HTTP client itself could not be built; nothing was sent.
    ClientFailed,
}

/// What the driver of the worker reports.
#[derive(PartialEq, Eq, Structural, Clone, Copy, Debug)]
pub enum Event {
    /// A cycle may begin; `cancelled` is the cancellation flag sampled now.
    CycleStart { cancelled: bool },
    /// The requested check finished.
    Checked { outcome: Probe },
    /// The requested alert was attempted; `delivered` tells how it went.
    Notified { delivered: bool },
    /// The requested sleep ran to its end.
    SleepElapsed,
    /// Cancellation was observed while the worker was waiting.
    Cancelled,
}

/// What the worker asks its driver to do next.
#[derive(Debug)]
pub enum Action {
    /// Check one address with the given timeout.
    Check { url: String, timeout_secs: u64 },
    /// Post `content` to the webhook.
    Notify { webhook_url: String, content: String },
    /// Sleep for `secs` seconds unless cancelled first.
    Sleep { secs: u64 },
    /// Sample the cancellation flag and report `CycleStart`.
    BeginCycle,
    /// Stop for good.
    Stop,
    /// The event did not belong to the current phase: nothing to do.
    Wait,
}

pub enum ActionView {
    Check { url: Seq<char>, timeout_secs: u64 },
    Notify { webhook_url: Seq<char>, content: Seq<char> },
    Sleep { secs: u64 },
    BeginCycle,
    Stop,
    Wait,
}

impl View for Action {
    type V = ActionView;

    open spec fn view(&self) -> ActionView {
        match self {
            Action::Check { url, timeout_secs } => ActionView::Check {
                url: url@,
                timeout_secs: *timeout_secs,
            },
            Action::Notify { webhook_url, content } => ActionView::Notify {
                webhook_url: webhook_url@,
                content: content@,
            },
            Action::Sleep { secs } => ActionView::Sleep { secs: *secs },
            Action::BeginCycle => ActionView::BeginCycle,
            Action::Stop => ActionView::Stop,
            Action::Wait => ActionView::Wait,
        }
    }
}

/// An observation that counts as the address being down.
pub open spec fn is_down(p: Probe) -> bool {
    p == Probe::Unreachable || p == (Probe::Responded { success: false })
}

/// The mention that starts an alert when a Discord id is configured.
pub open spec fn mention(id: Option<u64>) -> Seq<char> {
    match id {
        Some(i) => "<@"@ + decimal(i as nat) + "> "@,
        None => Seq::empty(),
    }
}

/// The text of the alert about an address that is down.
pub open spec fn alert_text(url: Seq<char>, id: Option<u64>) -> Seq<char> {
    mention(id) + "Alert: "@ + url + " is DOWN!"@
}

pub open spec fn contains(s: Seq<char>, part: Seq<char>) -> bool {
    exists|k: int| 0 <= k && k + part.len() <= s.len() && #[trigger] s.subrange(k, k + part.len()) == part
}

/// Go on with the address at `i`, or sleep when the cycle has no more.
pub open spec fn check_from(c: Settings, i: int) -> (Phase, ActionView) {
    if 0 <= i < c.urls.len() {
        (
            Phase::Checking { index: i as usize },
            ActionView::Check { url: c.urls[i], timeout_secs: c.timeout_secs },
        )
    } else {
        (Phase::Sleeping, ActionView::Sleep { secs: c.check_interval_secs })
    }
}

/// The worker's transition: the next phase and the action for the driver.
pub open spec fn transition(c: Settings, p: Phase, e: Event) -> (Phase, ActionView) {
    match p {
        Phase::Idle => match e {
            Event::CycleStart { cancelled } => if cancelled {
                (Phase::Stopped, ActionView::Stop)
            } else {
                check_from(c, 0)
            },
            Event::Cancelled => (Phase::Stopped, ActionView::Stop),
            _ => (p, ActionView::Wait),
        },
        Phase::Checking { index } => match e {
            Event::Checked { outcome } => if index < c.urls.len() && is_down(outcome)
                && c.webhook_url is Some {
                (
                    Phase::Notifying { index },
                    ActionView::Notify {
                        webhook_url: c.webhook_url->0,
                        content: alert_text(c.urls[index as int], c.discord_id),
                    },
                )
            } else {
                check_from(c, index + 1)
            },
            _ => (p, ActionView::Wait),
        },
        Phase::Notifying { index } => match e {
            Event::Notified { .. } => check_from(c, index + 1),
            _ => (p, ActionView::Wait),
        },
        Phase::Sleeping => match e {
            Event::SleepElapsed => (Phase::Idle, ActionView::BeginCycle),
            Event::Cancelled => (Phase::Stopped, ActionView::Stop),
            _ => (p, ActionView::Wait),
        },
        Phase::Stopped => (p, ActionView::Stop),
    }
}

/// Builds the alert text: the mention, if any, then `Alert: <url> is DOWN!`.
pub fn alert_message(url: &str, discord_id: Option<u64>) -> (r: String)
    ensures
        r@ == alert_text(url@, discord_id),
{
    let mut s = match discord_id {
        Some(id) => {
            let mut t = String::from_str("<@");
            let digits = render_u64(id);
            t.append(digits.as_str());
            t.append("> ");
            t
        },
        None => String::new(),
    };
    s.append("Alert: ");
    s.append(url);
    s.append(" is DOWN!");
    assert(s@ =~= alert_text(url@, discord_id));
    s
}

/// The monitoring worker: the configuration it runs on and its phase.
#[derive(Debug)]
pub struct Monitor {
    pub config: Config,
    pub phase: Phase,
}

impl Monitor {
    /// A worker that has not begun its first cycle.
    pub fn new(config: Config) -> (m: Monitor)
        ensures
            m.config == config,
            m.phase == Phase::Idle,
    {
        Monitor { config, phase: Phase::Idle }
    }

    fn check_from(&self, i: usize) -> (r: (Phase, Action))
        ensures
            (r.0, r.1@) == check_from(self.config@, i as int),
    {
        if i < self.config.sites.urls.len() {
            (
                Phase::Checking { index: i },
                Action::Check {
                    url: self.config.sites.urls[i].clone(),
                    timeout_secs: self.config.config.timeout_secs,
                },
            )
        } else {
            (Phase::Sleeping, Action::Sleep { secs: self.config.config.check_interval_secs })
        }
    }

    /// Goes on with the address after the one at `index`.
    fn after(&self, index: usize) -> (r: (Phase, Action))
        ensures
            (r.0, r.1@) == check_from(self.config@, index + 1),
    {
        if index < self.config.sites.urls.len() {
            self.check_from(index + 1)
        } else {
            self.check_from(self.config.sites.urls.len())
        }
    }

    /// Takes one event, moves to the next phase and says what to do next.
    pub fn step(&mut self, event: Event) -> (a: Action)
        ensures
            final(self).config == old(self).config,
            (final(self).phase, a@) == transition(old(self).config@, old(self).phase, event),
    {
        let (phase, action) = match self.phase {
            Phase::Idle => match event {
                Event::CycleStart { cancelled } => {
                    if cancelled {
                        (Phase::Stopped, Action::Stop)
                    } else {
                        self.check_from(0)
                    }
                },
                Event::Cancelled => (Phase::Stopped, Action::Stop),
                _ => (self.phase, Action::Wait),
            },
            Phase::Checking { index } => match event {
                Event::Checked { outcome } => {
                    let down = match outcome {
                        Probe::Responded { success } => !success,
                        Probe::Unreachable => true,
                        Probe::ClientFailed => false,
                    };
                    match &self.config.config.webhook_url {
                        Some(w) if down && index < self.config.sites.urls.len() => {
                            let content = alert_message(
                                self.config.sites.urls[index].as_str(),
                                self.config.config.discord_id,
                            );
                            (
                                Phase::Notifying { index },
                                Action::Notify { webhook_url: w.clone(), content },
                            )
                        },
                        _ => self.after(index),
                    }
                },
                _ => (self.phase, Action::Wait),
            },
            Phase::Notifying { index } => match event {
                Event::Notified { .. } => self.after(index),
                _ => (self.phase, Action::Wait),
            },
            Phase::Sleeping => match event {
                Event::SleepElapsed => (Phase::Idle, Action::BeginCycle),
                Event::Cancelled => (Phase::Stopped, Action::Stop),
                _ => (self.phase, Action::Wait),
            },
            Phase::Stopped => (self.phase, Action::Stop),
        };
        self.phase = phase;
        action
    }

    /// Tells whether the worker has stopped.
    pub fn is_stopped(&self) -> (r: bool)
        ensures
            r == (self.phase == Phase::Stopped),
    {
        match self.phase {
            Phase::Stopped => true,
            _ => false,
        }
    }
}

/// A check that finds the address down, with a webhook configured, yields
/// exactly one alert, whose text names the address; once the alert has been
/// attempted, the worker goes on without a second alert.
pub proof fn down_result_alerts_once(c: Settings, i: usize, outcome: Probe, delivered: bool)
    requires
        i < c.urls.len(),
        c.webhook_url is Some,
        is_down(outcome),
    ensures
        ({
            let (p1, a1) = transition(c, Phase::Checking { index: i }, Event::Checked { outcome });
            let (p2, a2) = transition(c, p1, Event::Notified { delivered });
            &&& p1 == Phase::Notifying { index: i }
            &&& a1 matches ActionView::Notify { webhook_url, content } && webhook_url
                == c.webhook_url->0 && contains(content, c.urls[i as int])
            &&& !(a2 is Notify)
            &&& (p2, a2) == check_from(c, i + 1)
        }),
{
    let text = alert_text(c.urls[i as int], c.discord_id);
    let k = (mention(c.discord_id) + "Alert: "@).len() as int;
    assert(text.subrange(k, k + c.urls[i as int].len()) =~= c.urls[i as int]);
}

/// A check that finds the address up yields no alert: the worker goes
/// straight on to the next address, or to sleep after the last one.
pub proof fn up_result_does_not_alert(c: Settings, i: usize)
    requires
        i < c.urls.len(),
    ensures
        ({
            let (p, a) = transition(
                c,
                Phase::Checking { index: i },
                Event::Checked { outcome: Probe::Responded { success: true } },
            );
            &&& !(a is Notify)
            &&& (p, a) == check_from(c, i + 1)
        }),
{
}

/// Whatever one check observes, the cycle goes on with the next address in
/// file order, after at most one alert: no address is skipped or checked twice.
pub proof fn each_result_moves_on(c: Settings, i: usize, outcome: Probe, delivered: bool)
    requires
        i < c.urls.len(),
    ensures
        ({
            let (p1, a1) = transition(c, Phase::Checking { index: i }, Event::Checked { outcome });
            let after = if p1 == (Phase::Notifying { index: i }) {
                transition(c, p1, Event::Notified { delivered })
            } else {
                (p1, a1)
            };
            after == check_from(c, i + 1)
        }),
{
}

/// Cancellation seen at the start of a cycle stops the worker before any
/// check; cancellation during the sleep stops it at once, without a further
/// cycle. A stopped worker stays stopped.
pub proof fn cancellation_stops(c: Settings, e: Event)
    ensures
        transition(c, Phase::Idle, Event::CycleStart { cancelled: true }) == (
            Phase::Stopped,
            ActionView::Stop,
        ),
        transition(c, Phase::Sleeping, Event::Cancelled) == (Phase::Stopped, ActionView::Stop),
        transition(c, Phase::Stopped, e).0 == Phase::Stopped,
{
}

} // verus!
