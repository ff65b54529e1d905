//! What the scaler answers to its four kinds of request: whether the caller
//! is active now, the same again and again for a subscriber, what the metric
//! is called and aims at, and what the metric is now.

use std::sync::Arc;
use vstd::prelude::*;
use vstd::string::StringExecFns;

use crate::calendar::DateTime;
use crate::calendar::TimeOfDay;
use crate::metadata::query_of;
use crate::metadata::read_target_size;
use crate::metadata::target_size_of;
use crate::metadata::validate;
use crate::metadata::MetadataError;
use crate::metadata::ScalerMetadata;
use crate::metadata::ScalerQuery;
use crate::metadata::TimeWindow;
use crate::working_days::WorkingDays;
use crate::working_days::WorkingDaysError;
use crate::working_days::WorkingDaysView;

verus! {

/// Why a request is turned down. Either way it is the caller's argument that
/// is at fault, and the request is not tried again.
#[derive(Debug, PartialEq)]
pub enum ScalerError {
    /// The settings of the request are not accepted.
    Metadata(MetadataError),
    /// The index of working days has no answer for today.
    Calendar(WorkingDaysError),
}

impl ScalerError {
    /// The error in words: those of the error that it holds.
    pub open spec fn message(self) -> Seq<char> {
        match self {
            ScalerError::Metadata(error) => error.message(),
            ScalerError::Calendar(error) => error.message(),
        }
    }

    /// The error in words.
    pub fn to_string(&self) -> (text: String)
        ensures
            text@ == self.message(),
    {
        match self {
            ScalerError::Metadata(error) => error.to_string(),
            ScalerError::Calendar(error) => error.to_string(),
        }
    }
}

/// The name of the metric.
pub open spec fn metric_name() -> Seq<char> {
    "nthWorkingDay"@
}

/// What the metric is called and what it aims at.
#[derive(Debug, PartialEq, Eq)]
pub struct MetricSpec {
    pub metric_name: String,
    pub target_size: i64,
}

/// What the metric is now.
#[derive(Debug, PartialEq, Eq)]
pub struct MetricValue {
    pub metric_name: String,
    pub metric_value: i64,
}

/// Whether a caller is active at the moment `now`: the index must hold the
/// working day that the caller waits for at the date of `now`, and where the
/// caller named a part of the day, the time of `now` must lie in it. `None`
/// where the index does not cover the date.
pub open spec fn activation(
    index: WorkingDaysView,
    now: DateTime,
    expected_nth_working_day: u8,
    window: Option<TimeWindow>,
) -> Option<bool> {
    match index.lookup(now.date@) {
        None => None,
        Some(nth_working_day) => Some(
            nth_working_day == expected_nth_working_day && match window {
                None => true,
                Some(window) => window.holds(now.time),
            },
        ),
    }
}

/// Whether `error` says that a date lies outside the range of `index`, and
/// names both ends of that range.
pub open spec fn is_out_of_range_of(error: WorkingDaysError, index: WorkingDaysView) -> bool {
    &&& error matches WorkingDaysError::DateOutOfRange(start, end)
    &&& start@ == index.start_date
    &&& end@ == index.end_date
}

/// Whether `answer` is the answer to the question if a caller is active at the
/// moment `now`, given what reading its settings came to. Settings that were
/// not accepted decide the answer; the index is asked only for accepted ones.
pub open spec fn is_answer_for(
    index: WorkingDaysView,
    query: Result<ScalerQuery, MetadataError>,
    now: DateTime,
    answer: Result<bool, ScalerError>,
) -> bool {
    match query {
        Err(error) => answer == Err::<bool, ScalerError>(ScalerError::Metadata(error)),
        Ok(query) => match activation(index, now, query.nth_working_day, query.window) {
            Some(active) => answer == Ok::<bool, ScalerError>(active),
            None => {
                &&& answer matches Err(ScalerError::Calendar(error))
                &&& is_out_of_range_of(error, index)
            },
        },
    }
}

/// Whether `answer` is the answer to the question if the caller with the
/// given settings is active at the moment `now`. The settings are looked at
/// first; the index only once they are accepted.
pub open spec fn is_activation_answer(
    index: WorkingDaysView,
    metadata: Map<Seq<char>, Seq<char>>,
    now: DateTime,
    answer: Result<bool, ScalerError>,
) -> bool {
    is_answer_for(index, query_of(metadata), now, answer)
}

/// Whether `answer` is the answer to the question what the metric is at the
/// moment `now`: the working day that the index holds for the date of `now`,
/// under the name that was asked for.
pub open spec fn is_metric_answer(
    index: WorkingDaysView,
    name: Seq<char>,
    now: DateTime,
    answer: Result<MetricValue, WorkingDaysError>,
) -> bool {
    match index.lookup(now.date@) {
        Some(nth_working_day) => {
            &&& answer matches Ok(value)
            &&& value.metric_name@ == name
            &&& value.metric_value == nth_working_day
        },
        None => {
            &&& answer matches Err(error)
            &&& is_out_of_range_of(error, index)
        },
    }
}

/// The working day of the month that the index holds for the date of `now`.
pub fn current_nth_working_day(working_days: &WorkingDays, now: &DateTime) -> (found: Result<
    u8,
    WorkingDaysError,
>)
    ensures
        match found {
            Ok(nth_working_day) => working_days@.lookup(now.date@) == Some(nth_working_day),
            Err(error) => working_days@.lookup(now.date@).is_none() && is_out_of_range_of(
                error,
                working_days@,
            ),
        },
{
    working_days.working_days_mtd(now.date)
}

/// Whether the time `time` lies between `from` and `to`, both included.
pub fn current_time_between(time: &TimeOfDay, from: TimeOfDay, to: TimeOfDay) -> (between: bool)
    ensures
        between == (TimeWindow { from, to }).holds(*time),
{
    from.le(time) && time.le(&to)
}

/// Decides whether a caller is active at the moment `now`.
pub fn evaluate(
    index: &WorkingDays,
    now: &DateTime,
    expected_nth_working_day: u8,
    window: Option<TimeWindow>,
) -> (decided: Result<bool, WorkingDaysError>)
    ensures
        match decided {
            Ok(active) => activation(index@, *now, expected_nth_working_day, window) == Some(
                active,
            ),
            Err(error) => activation(index@, *now, expected_nth_working_day, window).is_none()
                && is_out_of_range_of(error, index@),
        },
{
    let nth_working_day = match current_nth_working_day(index, now) {
        Ok(nth_working_day) => nth_working_day,
        Err(error) => {
            return Err(error);
        },
    };
    let time_match = match window {
        Some(window) => current_time_between(&now.time, window.from, window.to),
        None => true,
    };
    Ok(expected_nth_working_day == nth_working_day && time_match)
}

/// Answers whether a caller is active at the moment `now`, given what
/// reading its settings came to.
pub fn answer_for(
    working_days: &WorkingDays,
    query: &Result<ScalerQuery, MetadataError>,
    now: &DateTime,
) -> (answer: Result<bool, ScalerError>)
    ensures
        is_answer_for(working_days@, *query, *now, answer),
{
    let query = match query {
        Ok(query) => query,
        Err(error) => {
            return Err(ScalerError::Metadata(*error));
        },
    };
    match evaluate(working_days, now, query.nth_working_day, query.window) {
        Ok(active) => Ok(active),
        Err(error) => Err(ScalerError::Calendar(error)),
    }
}

/// Answers whether the caller with the given settings is active at the
/// moment `now`.
pub fn is_active_at(
    working_days: &WorkingDays,
    metadata: &ScalerMetadata,
    now: &DateTime,
) -> (answer: Result<bool, ScalerError>)
    ensures
        is_activation_answer(working_days@, metadata@, *now, answer),
{
    answer_for(working_days, &validate(metadata), now)
}

/// Answers whether the caller with the given settings is active right now,
/// by the clock of the offset that the index was built for.
pub fn is_active(working_days: &WorkingDays, metadata: &ScalerMetadata) -> (answer: Result<
    bool,
    ScalerError,
>)
    ensures
        exists|now: DateTime|
            now.date@.offset == working_days@.time_offset && #[trigger] is_activation_answer(
                working_days@,
                metadata@,
                now,
                answer,
            ),
{
    let now = DateTime::now(working_days.time_offset());
    is_active_at(working_days, metadata, &now)
}

/// Answers what the metric is called and what it aims at: the size that the
/// settings name. Nothing else of the settings is looked at.
pub fn get_metric_spec(metadata: &ScalerMetadata) -> (answer: Result<MetricSpec, MetadataError>)
    ensures
        match target_size_of(metadata@) {
            Ok(target_size) => {
                &&& answer matches Ok(spec)
                &&& spec.metric_name@ == metric_name()
                &&& spec.target_size == target_size
            },
            Err(error) => answer == Err::<MetricSpec, MetadataError>(error),
        },
{
    match read_target_size(metadata) {
        Ok(target_size) => Ok(
            MetricSpec {
                metric_name: String::from_str("nthWorkingDay"),
                target_size: target_size as i64,
            },
        ),
        Err(error) => Err(error),
    }
}

/// Answers what the metric is at the moment `now`.
pub fn get_metrics_at(
    working_days: &WorkingDays,
    metric_name: String,
    now: &DateTime,
) -> (answer: Result<MetricValue, WorkingDaysError>)
    ensures
        is_metric_answer(working_days@, metric_name@, *now, answer),
{
    match current_nth_working_day(working_days, now) {
        Ok(nth_working_day) => Ok(
            MetricValue { metric_name, metric_value: nth_working_day as i64 },
        ),
        Err(error) => Err(error),
    }
}

/// Answers what the metric is right now, by the clock of the offset that the
/// index was built for.
pub fn get_metrics(working_days: &WorkingDays, metric_name: String) -> (answer: Result<
    MetricValue,
    WorkingDaysError,
>)
    ensures
        exists|now: DateTime|
            now.date@.offset == working_days@.time_offset && #[trigger] is_metric_answer(
                working_days@,
                metric_name@,
                now,
                answer,
            ),
{
    let now = DateTime::now(working_days.time_offset());
    get_metrics_at(working_days, metric_name, &now)
}

/// Where the index does not cover today, the question whether a caller is
/// active and the question what the metric is are both turned down, and both
/// answers name the same range.
pub proof fn lemma_out_of_range_answers_name_the_same_range(
    index: WorkingDaysView,
    metadata: Map<Seq<char>, Seq<char>>,
    name: Seq<char>,
    now: DateTime,
    active: Result<bool, ScalerError>,
    metric: Result<MetricValue, WorkingDaysError>,
)
    requires
        query_of(metadata).is_ok(),
        !index.covers(now.date@),
        is_activation_answer(index, metadata, now, active),
        is_metric_answer(index, name, now, metric),
    ensures
        active matches Err(ScalerError::Calendar(WorkingDaysError::DateOutOfRange(start, end)))
            && metric matches Err(WorkingDaysError::DateOutOfRange(first, last)) && start@
            == first@ && end@ == last@ && start@ == index.start_date && end@ == index.end_date,
{
}

/// Whether a subscription is still served.
#[derive(Clone, Copy, Debug, PartialEq, Eq, Structural)]
pub enum PublisherState {
    /// The subscriber is there, as far as is known.
    Active,
    /// The subscriber has gone; nothing more is sent.
    Closed,
}

/// What the one who serves a subscription reports back.
#[derive(Clone, Copy, Debug, PartialEq, Eq, Structural)]
pub enum PublisherEvent {
    /// The next answer is due; with it, whether the subscriber was found gone.
    Tick { subscriber_gone: bool },
    /// An answer was handed over; with it, whether the subscriber took it.
    Pushed { accepted: bool },
}

/// What the one who serves a subscription is to do next.
#[derive(Clone, Copy, Debug, PartialEq, Eq, Structural)]
pub enum PublisherAction {
    /// Work out the answer for now and hand it to the subscriber, waiting
    /// until the subscriber has room for it.
    Publish,
    /// Wait this many seconds, then report that the next answer is due.
    Wait(u64),
    /// Give the subscription up.
    Stop,
}

/// The state that a subscription is in after `event`, and what is to be done
/// then. While the subscriber is there, an answer is sent when one is due,
/// and a pause follows each answer that was taken. Once the subscriber is
/// found gone, or does not take an answer, the subscription is closed, and a
/// closed one stays closed.
pub open spec fn publisher_step(
    state: PublisherState,
    push_interval: u64,
    event: PublisherEvent,
) -> (PublisherState, PublisherAction) {
    match state {
        PublisherState::Closed => (PublisherState::Closed, PublisherAction::Stop),
        PublisherState::Active => match event {
            PublisherEvent::Tick { subscriber_gone } => if subscriber_gone {
                (PublisherState::Closed, PublisherAction::Stop)
            } else {
                (PublisherState::Active, PublisherAction::Publish)
            },
            PublisherEvent::Pushed { accepted } => if accepted {
                (PublisherState::Active, PublisherAction::Wait(push_interval))
            } else {
                (PublisherState::Closed, PublisherAction::Stop)
            },
        },
    }
}

/// How many answers may wait for a subscriber at a time. With room for one
/// only, a subscriber that is slow holds its publisher back, and no answer is
/// dropped or queued up.
pub const HANDOFF_CAPACITY: usize = 1;

/// One subscription: whether it is still served, the pause in seconds between
/// two answers, and what reading the settings came to when the subscription
/// was opened. The settings are read that once and never again.
#[derive(Clone, Copy, Debug, PartialEq, Eq)]
pub struct StreamPublisher {
    pub state: PublisherState,
    pub push_interval: u64,
    pub query: Result<ScalerQuery, MetadataError>,
}

impl StreamPublisher {
    /// A subscription that has just been opened for a caller with the given
    /// settings. Its first answer is due at once.
    pub fn new(push_interval: u64, metadata: &ScalerMetadata) -> (publisher: StreamPublisher)
        ensures
            publisher == (StreamPublisher {
                state: PublisherState::Active,
                push_interval,
                query: query_of(metadata@),
            }),
    {
        StreamPublisher { state: PublisherState::Active, push_interval, query: validate(metadata) }
    }

    /// Takes note of `event` and says what is to be done next.
    pub fn step(&mut self, event: PublisherEvent) -> (action: PublisherAction)
        ensures
            final(self).push_interval == old(self).push_interval,
            final(self).query == old(self).query,
            (final(self).state, action) == publisher_step(
                old(self).state,
                old(self).push_interval,
                event,
            ),
    {
        let (state, action) = match self.state {
            PublisherState::Closed => (PublisherState::Closed, PublisherAction::Stop),
            PublisherState::Active => match event {
                PublisherEvent::Tick { subscriber_gone } => if subscriber_gone {
                    (PublisherState::Closed, PublisherAction::Stop)
                } else {
                    (PublisherState::Active, PublisherAction::Publish)
                },
                PublisherEvent::Pushed { accepted } => if accepted {
                    (PublisherState::Active, PublisherAction::Wait(self.push_interval))
                } else {
                    (PublisherState::Closed, PublisherAction::Stop)
                },
            },
        };
        self.state = state;
        action
    }

    /// The answer to hand to the subscriber at the moment `now`: that of the
    /// settings as they were read when the subscription was opened.
    pub fn answer_at(&self, working_days: &WorkingDays, now: &DateTime) -> (answer: Result<
        bool,
        ScalerError,
    >)
        ensures
            is_answer_for(working_days@, self.query, *now, answer),
    {
        answer_for(working_days, &self.query, now)
    }

    /// The answer to hand to the subscriber right now, by the clock of the
    /// offset that the index was built for.
    pub fn answer(&self, working_days: &WorkingDays) -> (answer: Result<bool, ScalerError>)
        ensures
            exists|now: DateTime|
                now.date@.offset == working_days@.time_offset && #[trigger] is_answer_for(
                    working_days@,
                    self.query,
                    now,
                    answer,
                ),
    {
        let now = DateTime::now(working_days.time_offset());
        self.answer_at(working_days, &now)
    }
}

/// An answer to a subscriber is the answer that the same settings get when
/// they are asked about once: reading them again at every answer would change
/// nothing.
pub proof fn lemma_subscriber_gets_the_answer_of_a_single_request(
    index: WorkingDaysView,
    metadata: Map<Seq<char>, Seq<char>>,
    publisher: StreamPublisher,
    now: DateTime,
    answer: Result<bool, ScalerError>,
)
    requires
        publisher.query == query_of(metadata),
    ensures
        is_answer_for(index, publisher.query, now, answer) <==> is_activation_answer(
            index,
            metadata,
            now,
            answer,
        ),
{
}

/// Once a subscription is closed nothing opens it again, and nothing more is
/// sent: whatever is reported, it stays closed and is told to stop.
pub proof fn lemma_closed_subscription_stays_closed(push_interval: u64, event: PublisherEvent)
    ensures
        publisher_step(PublisherState::Closed, push_interval, event) == (
            PublisherState::Closed,
            PublisherAction::Stop,
        ),
{
}

/// The state that a subscription is in after a run of events, one after the other.
pub open spec fn publisher_state_after(
    state: PublisherState,
    push_interval: u64,
    events: Seq<PublisherEvent>,
) -> PublisherState
    decreases events.len(),
{
    if events.len() == 0 {
        state
    } else {
        publisher_step(
            publisher_state_after(state, push_interval, events.drop_last()),
            push_interval,
            events.last(),
        ).0
    }
}

/// Whether `event` says that the subscriber has gone: it was found gone when
/// an answer was due, or it did not take an answer.
pub open spec fn tells_of_departure(event: PublisherEvent) -> bool {
    event == (PublisherEvent::Tick { subscriber_gone: true }) || event == (
        PublisherEvent::Pushed { accepted: false }
    )
}

/// Once an event has told that the subscriber has gone, the subscription is
/// closed for good: whatever was reported since and whatever is reported
/// next, nothing more is sent.
pub proof fn lemma_nothing_is_sent_after_the_subscriber_has_gone(
    state: PublisherState,
    push_interval: u64,
    events: Seq<PublisherEvent>,
    next: PublisherEvent,
)
    requires
        exists|i: int| 0 <= i < events.len() && tells_of_departure(#[trigger] events[i]),
    ensures
        publisher_state_after(state, push_interval, events) == PublisherState::Closed,
        publisher_step(publisher_state_after(state, push_interval, events), push_interval, next)
            == (PublisherState::Closed, PublisherAction::Stop),
    decreases events.len(),
{
    let i = choose|i: int| 0 <= i < events.len() && tells_of_departure(#[trigger] events[i]);
    if i < events.len() - 1 {
        assert(events.drop_last()[i] == events[i]);
        lemma_nothing_is_sent_after_the_subscriber_has_gone(
            state,
            push_interval,
            events.drop_last(),
            events.last(),
        );
    }
}

/// An answer is sent only to a subscriber that was there when it was due, and
/// a subscriber that is found gone or does not take an answer closes the
/// subscription.
pub proof fn lemma_publisher_sends_only_while_subscribed(
    state: PublisherState,
    push_interval: u64,
    event: PublisherEvent,
)
    ensures
        publisher_step(state, push_interval, event).1 == PublisherAction::Publish <==> state
            == PublisherState::Active && event == (PublisherEvent::Tick { subscriber_gone: false }),
        event == (PublisherEvent::Tick { subscriber_gone: true }) || event == (
            PublisherEvent::Pushed { accepted: false }
        ) ==> publisher_step(state, push_interval, event) == (
            PublisherState::Closed,
            PublisherAction::Stop,
        ),
{
}

/// What serves the requests: the index of working days, which every request
/// reads and none changes, and the pause in seconds between two answers to a
/// subscriber.
#[derive(Debug)]
pub struct GrpcHandler {
    pub working_days: Arc<WorkingDays>,
    pub push_interval: u64,
}

impl GrpcHandler {
    /// Answers whether the caller with the given settings is active right now.
    pub fn is_active(&self, metadata: &ScalerMetadata) -> (answer: Result<bool, ScalerError>)
        ensures
            exists|now: DateTime|
                now.date@.offset == self.working_days@.time_offset
                    && #[trigger] is_activation_answer(
                    self.working_days@,
                    metadata@,
                    now,
                    answer,
                ),
    {
        is_active(&self.working_days, metadata)
    }

    /// Opens a subscription for a caller with the given settings: its answers
    /// come one pause of this handler apart.
    pub fn stream_is_active(&self, metadata: &ScalerMetadata) -> (publisher: StreamPublisher)
        ensures
            publisher == (StreamPublisher {
                state: PublisherState::Active,
                push_interval: self.push_interval,
                query: query_of(metadata@),
            }),
    {
        StreamPublisher::new(self.push_interval, metadata)
    }

    /// Answers what the metric is called and what it aims at.
    pub fn get_metric_spec(&self, metadata: &ScalerMetadata) -> (answer: Result<
        MetricSpec,
        MetadataError,
    >)
        ensures
            match target_size_of(metadata@) {
                Ok(target_size) => {
                    &&& answer matches Ok(spec)
                    &&& spec.metric_name@ == metric_name()
                    &&& spec.target_size == target_size
                },
                Err(error) => answer == Err::<MetricSpec, MetadataError>(error),
            },
    {
        get_metric_spec(metadata)
    }

    /// Answers what the metric is right now.
    pub fn get_metrics(&self, metric_name: String) -> (answer: Result<
        MetricValue,
        WorkingDaysError,
    >)
        ensures
            exists|now: DateTime|
                now.date@.offset == self.working_days@.time_offset && #[trigger] is_metric_answer(
                    self.working_days@,
                    metric_name@,
                    now,
                    answer,
                ),
    {
        get_metrics(&self.working_days, metric_name)
    }
}

} // verus!
