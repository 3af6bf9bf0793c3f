//! The journal processor: routes every log line through the alert rules
//! and the heartbeat rules, and scans the heartbeats for misses and
//! recoveries.

use vstd::prelude::*;
use crate::config::{Config, ConfigView, HeartbeatRule, HeartbeatRuleView};
use crate::heartbeat::{HeartbeatStateView, Transition};
use crate::matcher::{
    all_compile, first_match, lemma_first_match, match_result, Matcher, MatcherError, RuleView,
};
use vstd::string::*;
use crate::time::elapsed;
use crate::text::{missed_message, missed_text, recovered_message, recovered_text, text_views};
use crate::tracker::{snapshot_of, snapshot_view, HeartbeatTracker};

verus! {

/// Why a processor could not be built from a configuration.
#[derive(Debug)]
pub enum ProcessorError {
    /// The configuration holds neither an alert rule nor a heartbeat rule.
    NoRules,
    /// An alert rule has a pattern that does not compile.
    Alert(MatcherError),
    /// A heartbeat rule has a pattern that does not compile.
    Heartbeat(MatcherError),
}

impl ProcessorError {
    /// A one-line description of the error.
    pub fn message(&self) -> (text: String)
        ensures
            text@ == match *self {
                ProcessorError::NoRules =>
                    "Config must contain at least one alert or heartbeat rule"@,
                ProcessorError::Alert(e) => "Invalid regex pattern '"@ + e->pattern@ + "': "@
                    + e->cause@,
                ProcessorError::Heartbeat(e) => "Invalid regex pattern '"@ + e->pattern@ + "': "@
                    + e->cause@,
            },
    {
        match self {
            ProcessorError::NoRules => {
                "Config must contain at least one alert or heartbeat rule".to_owned()
            },
            ProcessorError::Alert(e) => e.message(),
            ProcessorError::Heartbeat(e) => e.message(),
        }
    }
}

/// What one log line led to.
#[derive(Debug)]
pub struct LineOutcome {
    /// The notification to send, where an alert rule matched the line.
    pub alert: Option<String>,
    /// The heartbeat rule that the line refreshed, where one matched.
    pub heartbeat: Option<usize>,
}

/// The notification that an alert rule list raises for `line`: the first
/// matching rule's prefix followed by the line, or nothing.
pub open spec fn alert_for(rules: Seq<RuleView>, line: Seq<char>) -> Option<Seq<char>> {
    match match_result(rules, line) {
        Some((_, text)) => Some(text),
        None => None,
    }
}

/// The heartbeat states after `line` was seen at `now`: the first matching
/// heartbeat rule has its last line replaced by the prefixed line, and
/// nothing else changes.
pub open spec fn states_after_line(
    rules: Seq<RuleView>,
    states: Seq<HeartbeatStateView>,
    line: Seq<char>,
    now: u64,
) -> Seq<HeartbeatStateView> {
    match match_result(rules, line) {
        Some((i, text)) => states.update(i, states[i].touched(text, now)),
        None => states,
    }
}

/// The text that reports `found` for `rule`, or nothing where there is
/// nothing to report.
pub open spec fn notice(rule: HeartbeatRuleView, found: Transition) -> Option<Seq<char>> {
    match found {
        Transition::Missed { elapsed } => Some(missed_message(rule.prefix, rule.pattern, elapsed)),
        Transition::Recovered { downtime } => Some(recovered_message(rule.pattern, downtime)),
        Transition::Unchanged => None,
    }
}

/// The notifications that a scan at `now` raises for the first `upto`
/// rules, in rule order.
pub open spec fn scan_notices(
    rules: Seq<HeartbeatRuleView>,
    states: Seq<HeartbeatStateView>,
    now: u64,
    upto: int,
) -> Seq<Seq<char>>
    decreases upto,
{
    if upto <= 0 {
        Seq::empty()
    } else {
        let before = scan_notices(rules, states, now, upto - 1);
        let rule = rules[upto - 1];
        match notice(rule, states[upto - 1].transition(rule.tolerance, now)) {
            Some(text) => before.push(text),
            None => before,
        }
    }
}

/// The heartbeat states that a scan at `now` leaves: each one scanned
/// with its own rule's tolerance.
pub open spec fn states_after_scan(
    rules: Seq<HeartbeatRuleView>,
    states: Seq<HeartbeatStateView>,
    now: u64,
) -> Seq<HeartbeatStateView> {
    Seq::new(states.len(), |i: int| states[i].scanned(rules[i].tolerance, now))
}

/// The arguments with which `stdbuf` is started to follow the journal:
/// line-buffered `journalctl` output of new entries only, limited to
/// `unit` where one is given.
pub open spec fn journal_arguments(unit: Seq<char>) -> Seq<Seq<char>> {
    let all = seq![
        "-oL"@,
        "journalctl"@,
        "--follow"@,
        "--lines"@,
        "0"@,
        "--output=cat"@,
        "--no-pager"@,
    ];
    if unit.len() == 0 {
        all
    } else {
        all + seq!["--unit"@, unit]
    }
}

/// A line that matches heartbeat rule `index` first resets that rule's
/// elapsed time to zero at that instant, whichever rule it is: the rule
/// then counts as seen at `now` with the prefixed line as its last line, a
/// scan at the same instant finds it on time whatever its tolerance, and
/// no other rule's state changes.
pub proof fn matching_line_resets_elapsed(
    rules: Seq<RuleView>,
    states: Seq<HeartbeatStateView>,
    line: Seq<char>,
    now: u64,
    index: int,
)
    requires
        rules.len() == states.len(),
        first_match(rules, line) == Some(index),
    ensures
        0 <= index < states.len(),
        states_after_line(rules, states, line, now).len() == states.len(),
        elapsed(now, states_after_line(rules, states, line, now)[index].last_seen) == 0,
        states_after_line(rules, states, line, now)[index].last_message == rules[index].prefix
            + line,
        forall|tolerance: u64|
            !(#[trigger] states_after_line(rules, states, line, now)[index].overdue(
                tolerance,
                now,
            )),
        forall|other: int|
            0 <= other < states.len() && other != index ==> #[trigger] states_after_line(
                rules,
                states,
                line,
                now,
            )[other] == states[other],
{
    lemma_first_match(rules, line);
    assert forall|tolerance: u64|
        !(#[trigger] states_after_line(rules, states, line, now)[index].overdue(
            tolerance,
            now,
        )) by {
        crate::heartbeat::touch_resets_elapsed(
            states[index],
            rules[index].prefix + line,
            now,
            tolerance,
        );
    }
}

/// The first `upto` rules raise nothing in a scan that finds every one of
/// them as the scan before left it.
proof fn lemma_silent_upto(
    rules: Seq<HeartbeatRuleView>,
    states: Seq<HeartbeatStateView>,
    first: u64,
    second: u64,
    upto: int,
)
    requires
        rules.len() == states.len(),
        0 <= upto <= states.len(),
        forall|i: int|
            0 <= i < states.len() ==> (#[trigger] states[i]).overdue(rules[i].tolerance, first)
                == states[i].overdue(rules[i].tolerance, second),
    ensures
        scan_notices(rules, states_after_scan(rules, states, first), second, upto) == Seq::<
            Seq<char>,
        >::empty(),
    decreases upto,
{
    if upto > 0 {
        lemma_silent_upto(rules, states, first, second, upto - 1);
        let i = upto - 1;
        assert(states[i].overdue(rules[i].tolerance, first) == states[i].overdue(
            rules[i].tolerance,
            second,
        ));
        crate::heartbeat::repeated_scan_is_silent(states[i], rules[i].tolerance, first, second);
    }
}

/// Notifications are raised on transitions only, never on every scan: a
/// scan that finds each heartbeat overdue, or on time, just as the scan
/// before found it raises no notification at all and leaves every state
/// as it is.
pub proof fn unchanged_scan_is_silent(
    rules: Seq<HeartbeatRuleView>,
    states: Seq<HeartbeatStateView>,
    first: u64,
    second: u64,
)
    requires
        rules.len() == states.len(),
        forall|i: int|
            0 <= i < states.len() ==> (#[trigger] states[i]).overdue(rules[i].tolerance, first)
                == states[i].overdue(rules[i].tolerance, second),
    ensures
        scan_notices(
            rules,
            states_after_scan(rules, states, first),
            second,
            states.len() as int,
        ) == Seq::<Seq<char>>::empty(),
        states_after_scan(rules, states_after_scan(rules, states, first), second)
            == states_after_scan(rules, states, first),
{
    lemma_silent_upto(rules, states, first, second, states.len() as int);
    assert forall|i: int| 0 <= i < states.len() implies states_after_scan(
        rules,
        states_after_scan(rules, states, first),
        second,
    )[i] == states_after_scan(rules, states, first)[i] by {
        assert(states[i].overdue(rules[i].tolerance, first) == states[i].overdue(
            rules[i].tolerance,
            second,
        ));
        crate::heartbeat::repeated_scan_is_silent(states[i], rules[i].tolerance, first, second);
    }
    assert(states_after_scan(rules, states_after_scan(rules, states, first), second)
        =~= states_after_scan(rules, states, first));
}

/// The text that reports `found` for `rule`, or `None` where there is
/// nothing to report.
pub fn notice_text(rule: &HeartbeatRule, found: Transition) -> (text: Option<String>)
    ensures
        match text {
            Some(t) => notice(rule@, found) == Some(t@),
            None => notice(rule@, found) is None,
        },
{
    match found {
        Transition::Missed { elapsed } => Some(
            missed_text(rule.prefix.as_str(), rule.pattern.as_str(), elapsed),
        ),
        Transition::Recovered { downtime } => Some(recovered_text(rule.pattern.as_str(), downtime)),
        Transition::Unchanged => None,
    }
}

/// The processor: the configuration, both compiled rule lists, and the
/// heartbeat tracker.
pub struct JournalProcessor {
    config: Config,
    tracker: HeartbeatTracker,
    matcher_alerts: Matcher,
    matcher_heartbeats: Matcher,
}

impl JournalProcessor {
    /// The processor is well formed: its matchers hold the configured
    /// rules and its tracker holds one state per heartbeat rule. `new`
    /// establishes this and every method keeps it.
    pub closed spec fn wf(&self) -> bool {
        &&& self.tracker.wf()
        &&& self.tracker@.len() == self.config@.heartbeats.len()
        &&& self.matcher_alerts.rules() == self.config@.alerts
        &&& self.matcher_heartbeats.rules() == self.config@.heartbeat_rules()
    }

    /// The configuration that the processor was built from.
    pub closed spec fn config(&self) -> ConfigView {
        self.config@
    }

    /// The state of each heartbeat rule, in rule order.
    pub closed spec fn heartbeats(&self) -> Seq<HeartbeatStateView> {
        self.tracker@
    }

    /// A well-formed processor holds exactly one state for each configured
    /// heartbeat rule.
    pub proof fn lemma_one_state_per_rule(&self)
        requires
            self.wf(),
        ensures
            self.heartbeats().len() == self.config().heartbeats.len(),
    {
    }

    /// Builds the processor at time `now`. A configuration without any
    /// rule is rejected. Otherwise the alert rules and then the heartbeat
    /// rules are compiled: the processor is built exactly when every
    /// pattern compiles, and else the error names the list and the first
    /// rule in it whose pattern does not compile. On success every
    /// heartbeat counts as seen at `now`, with its pattern standing in for
    /// the last line.
    pub fn new(config: &Config, now: u64) -> (r: Result<JournalProcessor, ProcessorError>)
        ensures
            r is Ok <==> config@.has_rules() && all_compile(config@.alerts) && all_compile(
                config@.heartbeat_rules(),
            ),
            r matches Err(ProcessorError::NoRules) <==> !config@.has_rules(),
            (r is Err && r->Err_0 is Alert) <==> config@.has_rules() && !all_compile(
                config@.alerts,
            ),
            (r is Err && r->Err_0 is Heartbeat) <==> config@.has_rules() && all_compile(
                config@.alerts,
            ) && !all_compile(config@.heartbeat_rules()),
            r matches Ok(p) ==> p.wf() && p.config() == config@ && p.heartbeats().len()
                == config@.heartbeats.len() && p.heartbeats() == Seq::new(
                config@.heartbeats.len(),
                |i: int| HeartbeatStateView::fresh(now, config@.heartbeats[i].pattern),
            ),
            r matches Err(ProcessorError::Alert(e)) ==> e.rejects(config@.alerts),
            r matches Err(ProcessorError::Heartbeat(e)) ==> e.rejects(config@.heartbeat_rules()),
    {
        if !config.has_rules() {
            return Err(ProcessorError::NoRules);
        }
        let alert_rules = config.alert_rules();
        let matcher_alerts = match Matcher::compile(alert_rules.as_slice()) {
            Ok(m) => m,
            Err(e) => {
                return Err(ProcessorError::Alert(e));
            },
        };
        let heartbeat_rules = config.heartbeat_rules();
        let matcher_heartbeats = match Matcher::compile(heartbeat_rules.as_slice()) {
            Ok(m) => m,
            Err(e) => {
                return Err(ProcessorError::Heartbeat(e));
            },
        };
        let mut patterns: Vec<String> = Vec::new();
        let mut i: usize = 0;
        while i < config.heartbeats.len()
            invariant
                i <= config.heartbeats@.len(),
                patterns@.len() == i,
                forall|k: int| 0 <= k < i ==> (#[trigger] patterns@[k])@ == config.heartbeats@[k].pattern@,
            decreases config.heartbeats@.len() - i,
        {
            patterns.push(config.heartbeats[i].pattern.clone());
            i += 1;
        }
        let tracker = HeartbeatTracker::new(patterns.as_slice(), now);
        let processor = JournalProcessor {
            config: config.clone(),
            tracker,
            matcher_alerts,
            matcher_heartbeats,
        };
        assert(processor.heartbeats() =~= Seq::new(
            config@.heartbeats.len(),
            |i: int| HeartbeatStateView::fresh(now, config@.heartbeats[i].pattern),
        ));
        Ok(processor)
    }

    /// Handles one log line seen at `now`. The line is matched against the
    /// alert rules and, independently, against the heartbeat rules; in each
    /// list the first matching rule wins. An alert match yields the
    /// notification text, the rule's prefix followed by the line. A
    /// heartbeat match records the prefixed line as that rule's last line,
    /// seen at `now`.
    pub fn process_line(&mut self, line: &str, now: u64) -> (outcome: LineOutcome)
        requires
            old(self).wf(),
        ensures
            final(self).wf(),
            final(self).config() == old(self).config(),
            old(self).heartbeats().len() == old(self).config().heartbeats.len(),
            final(self).heartbeats().len() == old(self).heartbeats().len(),
            match outcome.alert {
                Some(text) => alert_for(old(self).config().alerts, line@) == Some(text@),
                None => alert_for(old(self).config().alerts, line@) is None,
            },
            match outcome.heartbeat {
                Some(i) => first_match(old(self).config().heartbeat_rules(), line@) == Some(
                    i as int,
                ),
                None => first_match(old(self).config().heartbeat_rules(), line@) is None,
            },
            final(self).heartbeats() == states_after_line(
                old(self).config().heartbeat_rules(),
                old(self).heartbeats(),
                line@,
                now,
            ),
    {
        let alert = match self.matcher_alerts.find_match(line) {
            Some((_, text)) => Some(text),
            None => None,
        };
        let heartbeat = match self.matcher_heartbeats.find_match(line) {
            Some((i, text)) => {
                self.tracker.touch(i, text, now);
                Some(i)
            },
            None => None,
        };
        LineOutcome { alert, heartbeat }
    }

    /// One scan of all heartbeats at `now`, in rule order. Each heartbeat
    /// is compared with its own rule's tolerance: one that has just become
    /// overdue raises a missed notification, one that has just returned
    /// raises a recovered notification, and one that is as it was at the
    /// last scan raises nothing. The result holds the notifications to
    /// send, in rule order.
    pub fn scan(&mut self, now: u64) -> (notices: Vec<String>)
        requires
            old(self).wf(),
        ensures
            final(self).wf(),
            final(self).config() == old(self).config(),
            old(self).heartbeats().len() == old(self).config().heartbeats.len(),
            final(self).heartbeats().len() == old(self).heartbeats().len(),
            final(self).heartbeats() == states_after_scan(
                old(self).config().heartbeats,
                old(self).heartbeats(),
                now,
            ),
            text_views(notices@) == scan_notices(
                old(self).config().heartbeats,
                old(self).heartbeats(),
                now,
                old(self).heartbeats().len() as int,
            ),
    {
        let mut notices: Vec<String> = Vec::new();
        let count: usize = self.config.heartbeats.len();
        let mut i: usize = 0;
        while i < count
            invariant
                i <= count,
                count == self.config@.heartbeats.len(),
                self.wf(),
                self.config@ == old(self).config@,
                self.tracker@.len() == old(self).tracker@.len(),
                forall|k: int|
                    0 <= k < i ==> #[trigger] self.tracker@[k] == old(self).tracker@[k].scanned(
                        self.config@.heartbeats[k].tolerance,
                        now,
                    ),
                forall|k: int| i <= k < count ==> #[trigger] self.tracker@[k] == old(self).tracker@[k],
                text_views(notices@) == scan_notices(
                    self.config@.heartbeats,
                    old(self).tracker@,
                    now,
                    i as int,
                ),
            decreases count - i,
        {
            let rule = &self.config.heartbeats[i];
            let found = self.tracker.scan(i, rule.tolerance, now);
            match notice_text(rule, found) {
                Some(text) => {
                    let ghost before = text_views(notices@);
                    notices.push(text);
                    assert(text_views(notices@) =~= before.push(text@));
                },
                None => {},
            }
            i += 1;
        }
        assert(final(self).heartbeats() =~= states_after_scan(
            old(self).config().heartbeats,
            old(self).heartbeats(),
            now,
        ));
        notices
    }

    /// For every heartbeat rule, in rule order: its index, the time of its
    /// last line and that line's text.
    pub fn snapshot(&self) -> (entries: Vec<(usize, u64, String)>)
        requires
            self.wf(),
        ensures
            snapshot_view(entries@) == snapshot_of(self.heartbeats()),
    {
        self.tracker.snapshot()
    }

    /// The seconds to wait between two scans, as configured.
    pub fn heartbeat_interval(&self) -> (secs: u64)
        ensures
            secs == self.config().heartbeat_interval,
    {
        self.config.heartbeat_interval
    }

    /// The arguments with which `stdbuf` is started to follow the journal.
    /// Without a configured unit all of the journal is followed.
    pub fn journal_args(&self) -> (args: Vec<String>)
        ensures
            text_views(args@) == journal_arguments(self.config().systemd_unit),
    {
        let mut args: Vec<String> = Vec::new();
        args.push("-oL".to_owned());
        args.push("journalctl".to_owned());
        args.push("--follow".to_owned());
        args.push("--lines".to_owned());
        args.push("0".to_owned());
        args.push("--output=cat".to_owned());
        args.push("--no-pager".to_owned());
        if !self.config.systemd_unit.as_str().is_empty() {
            args.push("--unit".to_owned());
            args.push(self.config.systemd_unit.clone());
        }
        assert(text_views(args@) =~= journal_arguments(self.config().systemd_unit));
        args
    }
}

} // verus!
