//! The notifier: decides for every queued message whether it goes out to
//! the webhook or is suppressed as a repeat of a message sent not long ago.

use vstd::prelude::*;
use dashmap::DashMap;
use crate::time::{elapsed, elapsed_since, exceeds, exceeds_secs};

verus! {

/// Seconds for which a message that went out suppresses its repeats.
pub const DEFAULT_SUPPRESSION_WINDOW: u64 = 3600;

/// What the notifier remembers about one message text: how often it has
/// been seen since it last went out, that delivery included, and when it
/// went out.
#[derive(Debug, Clone, Copy, PartialEq, Eq, Structural)]
pub struct SuppressionEntry {
    pub count: u64,
    pub seen: u64,
}

/// What is done with one message.
#[derive(Debug, Clone, Copy, PartialEq, Eq, Structural)]
pub enum Disposition {
    /// The message goes out to the webhook.
    Deliver,
    /// The message is a repeat and does not go out; `count` is how often
    /// the text has now been seen.
    Suppress { count: u64 },
}

/// Where a message that goes out is sent.
#[derive(Debug, Clone, Copy, PartialEq, Eq, Structural)]
pub enum Delivery {
    /// No webhook is configured: the message is only logged.
    Log,
    /// The message is posted to the webhook.
    Post,
}

/// At `now` the entry is no older than `window` seconds: it still
/// suppresses repeats.
pub open spec fn live(entry: SuppressionEntry, now: u64, window: u64) -> bool {
    !exceeds(elapsed(now, entry.seen), window)
}

/// `count + 1`, or the largest count where that does not fit.
pub open spec fn next_count(count: u64) -> u64 {
    if count < u64::MAX {
        (count + 1) as u64
    } else {
        u64::MAX
    }
}

/// `message` has an entry that is live at `now`.
pub open spec fn is_suppressed(
    entries: Map<Seq<char>, SuppressionEntry>,
    message: Seq<char>,
    now: u64,
    window: u64,
) -> bool {
    entries.contains_key(message) && live(entries[message], now, window)
}

/// What is done with `message` arriving at `now`.
pub open spec fn disposition(
    entries: Map<Seq<char>, SuppressionEntry>,
    message: Seq<char>,
    now: u64,
    window: u64,
) -> Disposition {
    if is_suppressed(entries, message, now, window) {
        Disposition::Suppress { count: next_count(entries[message].count) }
    } else {
        Disposition::Deliver
    }
}

/// The entries after `message` arrived at `now`: a repeat raises the count
/// of its entry and keeps its time; any other message gets a new entry
/// with count one and time `now`. No other entry changes.
pub open spec fn entries_after(
    entries: Map<Seq<char>, SuppressionEntry>,
    message: Seq<char>,
    now: u64,
    window: u64,
) -> Map<Seq<char>, SuppressionEntry> {
    if is_suppressed(entries, message, now, window) {
        entries.insert(
            message,
            SuppressionEntry {
                count: next_count(entries[message].count),
                seen: entries[message].seen,
            },
        )
    } else {
        entries.insert(message, SuppressionEntry { count: 1, seen: now })
    }
}

/// The entries that are still live at `now`.
pub open spec fn live_entries(
    entries: Map<Seq<char>, SuppressionEntry>,
    now: u64,
    window: u64,
) -> Map<Seq<char>, SuppressionEntry> {
    Map::new(
        |message: Seq<char>| entries.contains_key(message) && live(entries[message], now, window),
        |message: Seq<char>| entries[message],
    )
}

/// The entries after `message` arrived once at each of `times`, in order.
pub open spec fn entries_after_all(
    entries: Map<Seq<char>, SuppressionEntry>,
    message: Seq<char>,
    times: Seq<u64>,
    window: u64,
) -> Map<Seq<char>, SuppressionEntry>
    decreases times.len(),
{
    if times.len() == 0 {
        entries
    } else {
        entries_after(
            entries_after_all(entries, message, times.drop_last(), window),
            message,
            times.last(),
            window,
        )
    }
}

/// What is done with each of the arrivals of `message` at `times`, in
/// order.
pub open spec fn dispositions(
    entries: Map<Seq<char>, SuppressionEntry>,
    message: Seq<char>,
    times: Seq<u64>,
    window: u64,
) -> Seq<Disposition>
    decreases times.len(),
{
    if times.len() == 0 {
        Seq::empty()
    } else {
        dispositions(entries, message, times.drop_last(), window).push(
            disposition(
                entries_after_all(entries, message, times.drop_last(), window),
                message,
                times.last(),
                window,
            ),
        )
    }
}

/// The count that an entry holds after `seen` arrivals.
pub open spec fn count_after(seen: nat) -> u64 {
    if seen <= u64::MAX {
        seen as u64
    } else {
        u64::MAX
    }
}

/// Of consecutive identical messages that all arrive within the window of
/// the first, where the first is not itself a repeat, exactly the first
/// goes out and every later one is suppressed with the running count; the
/// entry keeps the time of the first.
pub proof fn repeats_are_suppressed(
    entries: Map<Seq<char>, SuppressionEntry>,
    message: Seq<char>,
    times: Seq<u64>,
    window: u64,
)
    requires
        times.len() > 0,
        !is_suppressed(entries, message, times[0], window),
        forall|k: int| 0 <= k < times.len() ==> !exceeds(elapsed(#[trigger] times[k], times[0]), window),
    ensures
        dispositions(entries, message, times, window).len() == times.len(),
        dispositions(entries, message, times, window)[0] == Disposition::Deliver,
        forall|k: int|
            1 <= k < times.len() ==> #[trigger] dispositions(entries, message, times, window)[k]
                == (Disposition::Suppress { count: count_after((k + 1) as nat) }),
        entries_after_all(entries, message, times, window)[message] == (SuppressionEntry {
            count: count_after(times.len()),
            seen: times[0],
        }),
        entries_after_all(entries, message, times, window).contains_key(message),
    decreases times.len(),
{
    let earlier = times.drop_last();
    if times.len() == 1 {
        assert(earlier.len() == 0);
        assert(dispositions(entries, message, earlier, window) =~= Seq::empty());
        assert(entries_after_all(entries, message, earlier, window) == entries);
    } else {
        assert(earlier[0] == times[0]);
        assert forall|k: int| 0 <= k < earlier.len() implies !exceeds(
            elapsed(#[trigger] earlier[k], earlier[0]),
            window,
        ) by {
            assert(earlier[k] == times[k]);
        }
        repeats_are_suppressed(entries, message, earlier, window);
        let before = entries_after_all(entries, message, earlier, window);
        assert(live(before[message], times.last(), window)) by {
            assert(times.last() == times[times.len() - 1]);
        }
        assert forall|k: int| 1 <= k < times.len() implies #[trigger] dispositions(
            entries,
            message,
            times,
            window,
        )[k] == (Disposition::Suppress { count: count_after((k + 1) as nat) }) by {
            if k < earlier.len() {
                assert(dispositions(entries, message, earlier, window)[k] == (
                Disposition::Suppress { count: count_after((k + 1) as nat) }));
            }
        }
    }
}

/// Once the window has elapsed since a message went out, the same message
/// goes out again and starts a new entry.
pub proof fn redelivered_after_window(
    entries: Map<Seq<char>, SuppressionEntry>,
    message: Seq<char>,
    now: u64,
    window: u64,
)
    requires
        entries.contains_key(message),
        exceeds(elapsed(now, entries[message].seen), window),
    ensures
        disposition(entries, message, now, window) == Disposition::Deliver,
        entries_after(entries, message, now, window)[message] == (SuppressionEntry {
            count: 1,
            seen: now,
        }),
        !live_entries(entries, now, window).contains_key(message),
{
}

/// The entries that a map of suppression entries holds, each under the
/// text of its message.
pub uninterp spec fn suppression_entries(repeats: DashMap<String, SuppressionEntry>) -> Map<Seq<char>, SuppressionEntry>;

/// `DashMap::new`: a map without entries.
#[verifier::external_body]
fn repeats_new() -> (repeats: DashMap<String, SuppressionEntry>)
    ensures
        forall|message: Seq<char>| !suppression_entries(repeats).contains_key(message),
{
    DashMap::new()
}

/// `DashMap::get`, with the entry copied out: the entry stored under
/// `message`, or `None` where there is none.
#[verifier::external_body]
fn repeats_get(repeats: &DashMap<String, SuppressionEntry>, message: &str) -> (found: Option<
    SuppressionEntry,
>)
    ensures
        match found {
            Some(entry) => suppression_entries(*repeats).contains_key(message@) && entry
                == suppression_entries(*repeats)[message@],
            None => !suppression_entries(*repeats).contains_key(message@),
        },
{
    repeats.get(message).map(|entry| *entry.value())
}

/// `DashMap::insert`: afterwards `message` maps to `entry`, whether or
/// not it had an entry, and every other entry is as before.
#[verifier::external_body]
fn repeats_insert(
    repeats: &mut DashMap<String, SuppressionEntry>,
    message: String,
    entry: SuppressionEntry,
)
    ensures
        suppression_entries(*final(repeats)) == suppression_entries(*old(repeats)).insert(
            message@,
            entry,
        ),
{
    repeats.insert(message, entry);
}

/// `DashMap::retain` with [`is_live`] as the test: the entries that are
/// live at `now` stay as they are and all others are removed.
#[verifier::external_body]
fn repeats_retain_live(repeats: &mut DashMap<String, SuppressionEntry>, now: u64, window: u64)
    ensures
        suppression_entries(*final(repeats)) == live_entries(
            suppression_entries(*old(repeats)),
            now,
            window,
        ),
{
    repeats.retain(|_, entry| is_live(entry, now, window));
}

/// Whether `entry` is still live at `now`: no older than `window` seconds.
pub fn is_live(entry: &SuppressionEntry, now: u64, window: u64) -> (fresh: bool)
    ensures
        fresh == live(*entry, now, window),
{
    !exceeds_secs(elapsed_since(now, entry.seen), window)
}

impl SuppressionEntry {
    /// How many repeats this entry has suppressed: every sighting but the
    /// first, which went out.
    pub fn suppressed(&self) -> (n: u64)
        ensures
            n == if self.count > 0 {
                self.count - 1
            } else {
                0
            },
    {
        if self.count > 0 {
            self.count - 1
        } else {
            0
        }
    }
}

/// The notifier with its suppression entries.
pub struct Slack {
    webhook_url: String,
    window: u64,
    repeats: DashMap<String, SuppressionEntry>,
}

impl Slack {
    /// The suppression entries, by message text.
    pub closed spec fn entries(&self) -> Map<Seq<char>, SuppressionEntry> {
        suppression_entries(self.repeats)
    }

    /// The suppression window in seconds.
    pub closed spec fn window(&self) -> u64 {
        self.window
    }

    /// The webhook address; empty where messages are only logged.
    pub closed spec fn webhook(&self) -> Seq<char> {
        self.webhook_url@
    }

    /// A notifier for `webhook_url` with the default suppression window of
    /// one hour and no entries.
    pub fn new(webhook_url: String) -> (slack: Slack)
        ensures
            slack.webhook() == webhook_url@,
            slack.window() == DEFAULT_SUPPRESSION_WINDOW,
            slack.entries() == Map::<Seq<char>, SuppressionEntry>::empty(),
    {
        Slack::with_window(webhook_url, DEFAULT_SUPPRESSION_WINDOW)
    }

    /// A notifier for `webhook_url` with a suppression window of `window`
    /// seconds and no entries.
    pub fn with_window(webhook_url: String, window: u64) -> (slack: Slack)
        ensures
            slack.webhook() == webhook_url@,
            slack.window() == window,
            slack.entries() == Map::<Seq<char>, SuppressionEntry>::empty(),
    {
        let slack = Slack { webhook_url, window, repeats: repeats_new() };
        assert(slack.entries() =~= Map::<Seq<char>, SuppressionEntry>::empty());
        slack
    }

    /// Decides what is done with `message`, taken off the queue at `now`.
    /// Where the same text went out no longer than the window ago, the
    /// message is suppressed and its entry counts one more. Otherwise it
    /// goes out and gets a fresh entry with count one and time `now`; the
    /// entry stands whether or not the delivery then succeeds.
    pub fn handle(&mut self, message: &str, now: u64) -> (verdict: Disposition)
        ensures
            verdict == disposition(old(self).entries(), message@, now, old(self).window()),
            final(self).entries() == entries_after(
                old(self).entries(),
                message@,
                now,
                old(self).window(),
            ),
            final(self).window() == old(self).window(),
            final(self).webhook() == old(self).webhook(),
    {
        match repeats_get(&self.repeats, message) {
            Some(entry) => {
                if is_live(&entry, now, self.window) {
                    let count: u64 = if entry.count < u64::MAX {
                        entry.count + 1
                    } else {
                        u64::MAX
                    };
                    repeats_insert(
                        &mut self.repeats,
                        message.to_owned(),
                        SuppressionEntry { count, seen: entry.seen },
                    );
                    return Disposition::Suppress { count };
                }
            },
            None => {},
        }
        repeats_insert(&mut self.repeats, message.to_owned(), SuppressionEntry { count: 1, seen: now });
        Disposition::Deliver
    }

    /// Discards every entry that is older than the window at `now`, so
    /// that its message counts as new when it comes again.
    pub fn expire(&mut self, now: u64)
        ensures
            final(self).entries() == live_entries(old(self).entries(), now, old(self).window()),
            final(self).window() == old(self).window(),
            final(self).webhook() == old(self).webhook(),
    {
        repeats_retain_live(&mut self.repeats, now, self.window);
    }

    /// The entry kept for `message`, if there is one.
    pub fn entry(&self, message: &str) -> (found: Option<SuppressionEntry>)
        ensures
            match found {
                Some(entry) => self.entries().contains_key(message@) && entry
                    == self.entries()[message@],
                None => !self.entries().contains_key(message@),
            },
    {
        repeats_get(&self.repeats, message)
    }

    /// Where a message that goes out is sent: to the webhook, or only to
    /// the log where no webhook address is configured.
    pub fn delivery(&self) -> (target: Delivery)
        ensures
            target == if self.webhook().len() == 0 {
                Delivery::Log
            } else {
                Delivery::Post
            },
    {
        if self.webhook_url.as_str().is_empty() {
            Delivery::Log
        } else {
            Delivery::Post
        }
    }

    /// The webhook address; empty where messages are only logged.
    pub fn webhook_url(&self) -> (url: &str)
        ensures
            url@ == self.webhook(),
    {
        self.webhook_url.as_str()
    }
}

} // verus!
