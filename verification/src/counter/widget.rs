//! What the counter widget shows, and the record its button sends.

use vstd::prelude::*;
use crate::address::{url_outcome, url_parse, WsUrl};
use crate::counter::decimal::{
    all_digits, decimal_text, decimal_value, format_i32, law_decimal_text_reads_back,
};
use crate::text::join2;

verus! {

/// The count record exchanged over the topic.
pub struct Count {
    pub value: i32,
    pub label: String,
    pub description: String,
}

/// The record the increment button sends from the shown state: one more,
/// with empty label and description. The state must leave room for one
/// more.
pub fn next_count(state: i32) -> (r: Count)
    requires
        state < i32::MAX,
    ensures
        r.value == state + 1,
        r.label@ == Seq::<char>::empty(),
        r.description@ == Seq::<char>::empty(),
{
    Count { value: state + 1, label: String::new(), description: String::new() }
}

/// What the widget's consumer has to show: no consumer yet, no record or a
/// failed read yet, or the latest record's value as parsed from its JSON.
pub enum CountFeed {
    NoConsumer,
    NoRecord,
    ReadError,
    Record(Result<Count, String>),
}

/// What the widget shows, and the new state where a count was read.
pub struct CountDisplay {
    pub text: String,
    pub state: Option<i32>,
}

/// The text shown while no consumer is established.
pub open spec fn no_consumer_text() -> Seq<char> {
    "Fluvio consumer not yet established. Does the topic exist?"@
}

/// The text shown while the topic has yielded no record.
pub open spec fn no_count_text() -> Seq<char> {
    "No count returned from topic, try incrementing!"@
}

/// The text shown for a record that is not a count.
pub open spec fn bad_count_text() -> Seq<char> {
    "Failed to parse count"@
}

/// The text shown for a count.
pub open spec fn count_text(v: int) -> Seq<char> {
    "Count: "@ + decimal_text(v)
}

/// The widget's display for a feed: a parsed count is shown and becomes the
/// state; anything else shows its message and leaves the state alone.
pub open spec fn display_spec(feed: CountFeed) -> (Seq<char>, Option<i32>) {
    match feed {
        CountFeed::NoConsumer => (no_consumer_text(), None),
        CountFeed::NoRecord => (no_count_text(), None),
        CountFeed::ReadError => (no_count_text(), None),
        CountFeed::Record(Ok(c)) => (count_text(c.value as int), Some(c.value)),
        CountFeed::Record(Err(_)) => (bad_count_text(), None),
    }
}

/// What the widget shows for its consumer's feed.
pub fn count_display(feed: CountFeed) -> (r: CountDisplay)
    ensures
        (r.text@, r.state) == display_spec(feed),
{
    match feed {
        CountFeed::NoConsumer => CountDisplay {
            text: String::from_str("Fluvio consumer not yet established. Does the topic exist?"),
            state: None,
        },
        CountFeed::NoRecord | CountFeed::ReadError => CountDisplay {
            text: String::from_str("No count returned from topic, try incrementing!"),
            state: None,
        },
        CountFeed::Record(Ok(c)) => {
            let digits = format_i32(c.value);
            CountDisplay { text: join2("Count: ", digits.as_str()), state: Some(c.value) }
        },
        CountFeed::Record(Err(_)) => CountDisplay {
            text: String::from_str("Failed to parse count"),
            state: None,
        },
    }
}

/// A record sent by the increment button and read back shows the count one
/// above the state it was sent from, and that becomes the new state.
pub proof fn law_increment_is_shown(state: i32, sent: Count)
    requires
        state < i32::MAX,
        sent.value == state + 1,
    ensures
        display_spec(CountFeed::Record(Ok(sent))) == (count_text(state + 1), Some((state + 1) as i32)),
{
}

/// Where a consumer starts reading its topic.
pub enum ConsumerStart {
    Beginning,
    End,
}

/// How the counter produces and consumes: the producer's linger, the topic
/// the consumer reads, and where it starts.
pub struct CounterSettings {
    pub producer_linger_millis: u64,
    pub topic: String,
    pub consumer_start: ConsumerStart,
}

/// The counter's settings for `topic`: the producer sends each record at
/// once (no linger), and the consumer reads `topic` from its end, so only
/// counts sent from now on are shown.
pub fn counter_settings(topic: &str) -> (r: CounterSettings)
    ensures
        r.producer_linger_millis == 0,
        r.topic@ == topic@,
        r.consumer_start is End,
{
    CounterSettings {
        producer_linger_millis: 0,
        topic: String::from_str(topic),
        consumer_start: ConsumerStart::End,
    }
}

/// Why the counter cannot be set up, given how building its producer
/// configuration went (the builder error's debug text on failure) and
/// whether its consumer configuration was built: the producer is reported
/// first; `None` where both were built.
pub fn counter_setup_error(producer_config: Result<(), String>, consumer_config_built: bool) -> (r:
    Option<String>)
    ensures
        match producer_config {
            Err(e) => r matches Some(m) && m@ == "Failed to create producer: "@ + e@,
            Ok(()) => if consumer_config_built {
                r is None
            } else {
                r matches Some(m) && m@ == "Failed to create consumer config."@
            },
        },
{
    match producer_config {
        Err(e) => Some(join2("Failed to create producer: ", e.as_str())),
        Ok(()) => if consumer_config_built {
            None
        } else {
            Some(String::from_str("Failed to create consumer config."))
        },
    }
}

/// A parsed count is shown as `Count: ` followed by the count written in
/// decimal (digits that read back as the count, after a `-` for a negative
/// one), and it becomes the widget's state; every other feed leaves the
/// state alone.
pub proof fn law_count_is_shown_in_decimal(feed: CountFeed)
    ensures
        feed matches CountFeed::Record(Ok(c)) ==> ({
            let (text, state) = display_spec(feed);
            let shown = text.subrange(7, text.len() as int);
            &&& state == Some(c.value)
            &&& text.len() > 7
            &&& text.subrange(0, 7) == "Count: "@
            &&& (c.value >= 0 ==> all_digits(shown) && decimal_value(shown) == c.value)
            &&& (c.value < 0 ==> shown[0] == '-' && all_digits(shown.drop_first()) && decimal_value(
                shown.drop_first(),
            ) == -c.value)
        }),
        !(feed matches CountFeed::Record(Ok(_))) ==> display_spec(feed).1 is None,
{
    reveal_strlit("Count: ");
    if let CountFeed::Record(Ok(c)) = feed {
        law_decimal_text_reads_back(c.value as int);
        let text = display_spec(feed).0;
        let t = decimal_text(c.value as int);
        assert(text == "Count: "@ + t);
        assert(text.subrange(0, 7) =~= "Count: "@);
        assert(text.subrange(7, text.len() as int) =~= t);
    }
}

/// The message shown when the dashboard's websocket URL does not parse.
pub open spec fn bad_dashboard_url_text() -> Seq<char> {
    "Failed to get websocket url from dashboard"@
}

/// The proxy URL the widget connects to, parsed from the dashboard's
/// attribute; where it does not parse, the widget shows only a message.
pub fn dashboard_url(raw: &str) -> (r: Result<WsUrl, String>)
    ensures
        match url_parse(raw@) {
            Ok(u) => r matches Ok(w) && w@ == u,
            Err(_) => r matches Err(m) && m@ == bad_dashboard_url_text(),
        },
{
    match WsUrl::parse(raw) {
        Ok(u) => Ok(u),
        Err(_) => Err(String::from_str("Failed to get websocket url from dashboard")),
    }
}

/// Why the widget does not mount.
pub open spec fn missing_url_text() -> Seq<char> {
    "Failed to get fluvio-url attribute from web component"@
}

/// Why the widget does not mount.
pub open spec fn missing_topic_text() -> Seq<char> {
    "Failed to get topic attribute from web component"@
}

/// The widget mounts with its `fluvio-url` and `topic` attributes; a
/// missing URL is reported before a missing topic.
pub fn mount_attributes(url: Option<String>, topic: Option<String>) -> (r: Result<(String, String), String>)
    ensures
        match (url, topic) {
            (Some(u), Some(t)) => r matches Ok(p) && p.0@ == u@ && p.1@ == t@,
            (None, _) => r matches Err(m) && m@ == missing_url_text(),
            (Some(_), None) => r matches Err(m) && m@ == missing_topic_text(),
        },
{
    let u = match url {
        Some(u) => u,
        None => {
            return Err(String::from_str("Failed to get fluvio-url attribute from web component"));
        },
    };
    let t = match topic {
        Some(t) => t,
        None => {
            return Err(String::from_str("Failed to get topic attribute from web component"));
        },
    };
    Ok((u, t))
}

} // verus!
