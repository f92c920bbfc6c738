use vstd::prelude::*;
use crate::config::{
    Args, ClientType, http_prefix, is_http_config, is_monitor_config, is_ws_config,
    kept_positions, resolved_name, ws_prefix,
};
use crate::metrics::Metrics;

verus! {

/// The wait after a lost or failed stream connection, in milliseconds.
/// The wait is constant on purpose: no exponential growth.
pub const RECONNECT_BACKOFF_MS: u64 = 5000;

/// The period of the polling loop, in milliseconds.
pub const POLL_PERIOD_MS: u64 = 1000;

/// How a monitor reaches its node.
#[derive(Debug, Clone, Copy, PartialEq, Eq, Structural)]
pub enum Transport {
    /// Subscription to new block headers over a long-lived connection.
    Stream,
    /// Periodic requests for the latest block.
    Poll,
}

/// One monitor to run: its endpoint, its sink, and the configuration its
/// sink is built from.
#[derive(Debug, Clone)]
pub struct MonitorJob {
    pub name: String,
    pub url: String,
    pub client: ClientType,
    pub transport: Transport,
    pub config: Args,
}

/// Runs one monitor per configured endpoint.
#[derive(Debug, Clone)]
pub struct MonitorManager {
    pub config: Args,
}

/// `job` is the monitor of the streaming endpoint at position `i` of `base`.
pub open spec fn is_stream_job(base: Args, i: int, job: MonitorJob) -> bool {
    &&& job.name@ == resolved_name(base.ws_names@, ws_prefix(), i)
    &&& job.url == base.ws@[i]
    &&& job.client == base.ws_client
    &&& job.transport == Transport::Stream
    &&& is_monitor_config(base, job.name, job.url, job.client, job.config)
}

/// `job` is the monitor of the polled endpoint at position `i` of `base`.
pub open spec fn is_poll_job(base: Args, i: int, job: MonitorJob) -> bool {
    &&& job.name@ == resolved_name(base.http_names@, http_prefix(), i)
    &&& job.url == base.http@[i]
    &&& job.client == base.http_client
    &&& job.transport == Transport::Poll
    &&& is_monitor_config(base, job.name, job.url, job.client, job.config)
}

impl MonitorManager {
    pub fn new(config: Args) -> (r: Self)
        ensures
            r.config == config,
    {
        MonitorManager { config }
    }

    /// The monitors to run: those of the well-formed streaming URLs in order,
    /// then those of the well-formed polled URLs in order. Empty when no
    /// endpoint is configured.
    pub fn jobs(&self) -> (r: Vec<MonitorJob>)
        ensures
            r@.len() == kept_positions(self.config.ws@).len() + kept_positions(self.config.http@).len(),
            forall|j: int|
                0 <= j < kept_positions(self.config.ws@).len() ==> is_stream_job(
                    self.config,
                    kept_positions(self.config.ws@)[j],
                    #[trigger] r@[j],
                ),
            forall|j: int|
                0 <= j < kept_positions(self.config.http@).len() ==> is_poll_job(
                    self.config,
                    kept_positions(self.config.http@)[j],
                    #[trigger] r@[kept_positions(self.config.ws@).len() + j],
                ),
    {
        let ws_configs = self.config.get_ws_configs();
        let http_configs = self.config.get_http_configs();
        let nws = ws_configs.len();
        let ghost wk = kept_positions(self.config.ws@);
        let ghost hk = kept_positions(self.config.http@);
        let mut r: Vec<MonitorJob> = Vec::new();
        let mut i: usize = 0;
        while i < nws
            invariant
                nws == ws_configs@.len() == wk.len(),
                wk == kept_positions(self.config.ws@),
                i <= nws,
                r@.len() == i,
                forall|k: int|
                    0 <= k < ws_configs@.len() ==> is_ws_config(self.config, wk[k], #[trigger] ws_configs@[k]),
                forall|j: int| 0 <= j < i ==> is_stream_job(self.config, wk[j], #[trigger] r@[j]),
            decreases nws - i,
        {
            let c = &ws_configs[i];
            let job_config = self.config.for_monitor(c.tag.clone(), c.url.clone(), c.client);
            r.push(MonitorJob {
                name: c.tag.clone(),
                url: c.url.clone(),
                client: c.client,
                transport: Transport::Stream,
                config: job_config,
            });
            i = i + 1;
        }
        let nhttp = http_configs.len();
        let mut i: usize = 0;
        while i < nhttp
            invariant
                nws == wk.len(),
                wk == kept_positions(self.config.ws@),
                hk == kept_positions(self.config.http@),
                nhttp == http_configs@.len() == hk.len(),
                i <= nhttp,
                r@.len() == nws + i,
                forall|k: int|
                    0 <= k < http_configs@.len() ==> is_http_config(self.config, hk[k], #[trigger] http_configs@[k]),
                forall|j: int| 0 <= j < nws ==> is_stream_job(self.config, wk[j], #[trigger] r@[j]),
                forall|j: int| 0 <= j < i ==> is_poll_job(self.config, hk[j], #[trigger] r@[nws + j]),
            decreases nhttp - i,
        {
            let c = &http_configs[i];
            let job_config = self.config.for_monitor(c.name.clone(), c.url.clone(), c.client);
            r.push(MonitorJob {
                name: c.name.clone(),
                url: c.url.clone(),
                client: c.client,
                transport: Transport::Poll,
                config: job_config,
            });
            proof {
                assert(r@[nws + i as int] == r@.last());
            }
            i = i + 1;
        }
        r
    }
}

/// Seconds to milliseconds, read as a signed count.
pub fn to_ms(block_timestamp: u64) -> (r: i64)
    requires
        block_timestamp * 1000 <= u64::MAX,
    ensures
        r == (block_timestamp * 1000) as i64,
        block_timestamp * 1000 <= i64::MAX ==> r == block_timestamp * 1000,
{
    (block_timestamp * 1000) as i64
}

/// The record of a header pushed by a stream: latency is not measured there.
pub open spec fn stream_record(name: String, number: u64, timestamp: u64, now: i64) -> Metrics {
    Metrics { name, block_height: number, block_timestamp: timestamp, os_timestamp: now, diff: 0 }
}

/// The record of a polled block: observed when the tick began, with the time
/// from then to the block's arrival as latency.
pub open spec fn poll_record(
    name: String,
    number: u64,
    timestamp: u64,
    before: i64,
    after: i64,
) -> Metrics {
    Metrics {
        name,
        block_height: number,
        block_timestamp: timestamp,
        os_timestamp: before,
        diff: (after - before) as i64,
    }
}

/// `after - before` fits in an `i64`.
pub open spec fn latency_fits(before: i64, after: i64) -> bool {
    i64::MIN <= after - before <= i64::MAX
}

/// Builds the record of a header received at time `now`.
pub fn make_stream_record(name: &String, number: u64, timestamp: u64, now: i64) -> (r: Metrics)
    ensures
        r == stream_record(*name, number, timestamp, now),
{
    Metrics { name: name.clone(), block_height: number, block_timestamp: timestamp, os_timestamp: now, diff: 0 }
}

/// Builds the record of a block polled between `before` and `after`.
pub fn make_poll_record(
    name: &String,
    number: u64,
    timestamp: u64,
    before: i64,
    after: i64,
) -> (r: Metrics)
    requires
        latency_fits(before, after),
    ensures
        r == poll_record(*name, number, timestamp, before, after),
{
    Metrics {
        name: name.clone(),
        block_height: number,
        block_timestamp: timestamp,
        os_timestamp: before,
        diff: after - before,
    }
}

/// Where the stream engine stands.
#[derive(Debug, Clone, Copy, PartialEq, Eq, Structural)]
pub enum StreamState {
    /// Waiting out the backoff after a failure.
    Disconnected,
    /// Opening a connection and a header subscription.
    Connecting,
    /// Receiving headers.
    Subscribed,
}

/// What happened since the stream engine last acted.
#[derive(Debug, Clone, Copy, PartialEq, Eq, Structural)]
pub enum StreamEvent {
    /// The connection and the subscription are up.
    Connected,
    /// Connecting or subscribing failed.
    ConnectFailed,
    /// A header arrived at local time `now` (milliseconds).
    Header { number: u64, timestamp: u64, now: i64 },
    /// The subscription yielded no more headers or failed.
    StreamEnded,
    /// The backoff wait is over.
    BackoffElapsed,
}

/// What the stream engine asks of its driver.
#[derive(Debug, Clone)]
pub enum StreamAction {
    /// Connect to the node and subscribe to new headers.
    Connect,
    /// Wait for the next header.
    AwaitHeader,
    /// Hand the record to the sink, without waiting for delivery, then wait
    /// for the next header.
    Emit(Metrics),
    /// Wait `ms` milliseconds, then report that the backoff elapsed.
    WaitBackoff { ms: u64 },
}

/// What a stream engine in state `s` waits for.
pub open spec fn stream_pending(s: StreamState) -> StreamAction {
    match s {
        StreamState::Disconnected => StreamAction::WaitBackoff { ms: RECONNECT_BACKOFF_MS },
        StreamState::Connecting => StreamAction::Connect,
        StreamState::Subscribed => StreamAction::AwaitHeader,
    }
}

/// The stream engine's next state and action. An event that does not fit the
/// state changes nothing and repeats what the state waits for.
pub open spec fn stream_next(name: String, s: StreamState, e: StreamEvent) -> (StreamState, StreamAction) {
    match (s, e) {
        (StreamState::Connecting, StreamEvent::Connected) => (StreamState::Subscribed, StreamAction::AwaitHeader),
        (StreamState::Connecting, StreamEvent::ConnectFailed) => (
            StreamState::Disconnected,
            StreamAction::WaitBackoff { ms: RECONNECT_BACKOFF_MS },
        ),
        (StreamState::Subscribed, StreamEvent::Header { number, timestamp, now }) => (
            StreamState::Subscribed,
            StreamAction::Emit(stream_record(name, number, timestamp, now)),
        ),
        (StreamState::Subscribed, StreamEvent::StreamEnded) => (
            StreamState::Disconnected,
            StreamAction::WaitBackoff { ms: RECONNECT_BACKOFF_MS },
        ),
        (StreamState::Disconnected, StreamEvent::BackoffElapsed) => (StreamState::Connecting, StreamAction::Connect),
        _ => (s, stream_pending(s)),
    }
}

/// The decisions of one streaming monitor: connect, forward each header as a
/// record, and reconnect after a fixed wait, forever.
#[derive(Debug, Clone)]
pub struct StreamMonitor {
    pub name: String,
    pub state: StreamState,
}

impl StreamMonitor {
    /// A monitor whose records carry `name`; it begins by connecting.
    pub fn new(name: String) -> (r: Self)
        ensures
            r.name == name,
            r.state == StreamState::Connecting,
    {
        StreamMonitor { name, state: StreamState::Connecting }
    }

    /// What the monitor waits for now.
    pub fn pending(&self) -> (r: StreamAction)
        ensures
            r == stream_pending(self.state),
    {
        match self.state {
            StreamState::Disconnected => StreamAction::WaitBackoff { ms: RECONNECT_BACKOFF_MS },
            StreamState::Connecting => StreamAction::Connect,
            StreamState::Subscribed => StreamAction::AwaitHeader,
        }
    }

    /// Takes in one event and says what to do next.
    pub fn step(&mut self, e: StreamEvent) -> (r: StreamAction)
        ensures
            final(self).name == old(self).name,
            (final(self).state, r) == stream_next(old(self).name, old(self).state, e),
    {
        match (self.state, e) {
            (StreamState::Connecting, StreamEvent::Connected) => {
                self.state = StreamState::Subscribed;
                StreamAction::AwaitHeader
            },
            (StreamState::Connecting, StreamEvent::ConnectFailed) => {
                self.state = StreamState::Disconnected;
                StreamAction::WaitBackoff { ms: RECONNECT_BACKOFF_MS }
            },
            (StreamState::Subscribed, StreamEvent::Header { number, timestamp, now }) => {
                StreamAction::Emit(make_stream_record(&self.name, number, timestamp, now))
            },
            (StreamState::Subscribed, StreamEvent::StreamEnded) => {
                self.state = StreamState::Disconnected;
                StreamAction::WaitBackoff { ms: RECONNECT_BACKOFF_MS }
            },
            (StreamState::Disconnected, StreamEvent::BackoffElapsed) => {
                self.state = StreamState::Connecting;
                StreamAction::Connect
            },
            _ => self.pending(),
        }
    }
}

/// Where the poll engine stands within a tick.
#[derive(Debug, Clone, Copy, PartialEq, Eq, Structural)]
pub enum PollState {
    /// Between ticks.
    Idle,
    /// The tick began at `before`; the latest block number is requested.
    AwaitingNumber { before: i64 },
    /// The tick began at `before`; block `number` is requested.
    AwaitingBlock { before: i64, number: u64 },
}

/// What happened since the poll engine last acted.
#[derive(Debug, Clone, Copy, PartialEq, Eq, Structural)]
pub enum PollEvent {
    /// A tick begins at local time `now` (milliseconds).
    Tick { now: i64 },
    /// The node reported `number` as its latest block.
    NumberFetched { number: u64 },
    /// The request for the latest block number failed.
    NumberFailed,
    /// The requested block arrived at local time `now`, with the chain's `timestamp`.
    BlockFetched { timestamp: u64, now: i64 },
    /// The requested block could not be had.
    BlockMissing,
}

/// What the poll engine asks of its driver.
#[derive(Debug, Clone)]
pub enum PollAction {
    /// Read the clock and report the start of a tick.
    AwaitTick,
    /// Request the latest block number.
    RequestLatest,
    /// Request the block with this number.
    RequestBlock { number: u64 },
    /// Hand the record, if any, to the sink without waiting for delivery,
    /// then sleep `sleep_ms` milliseconds before the next tick.
    EndTick { record: Option<Metrics>, sleep_ms: u64 },
}

/// What a poll engine in state `s` waits for.
pub open spec fn poll_pending(s: PollState) -> PollAction {
    match s {
        PollState::Idle => PollAction::AwaitTick,
        PollState::AwaitingNumber { .. } => PollAction::RequestLatest,
        PollState::AwaitingBlock { number, .. } => PollAction::RequestBlock { number },
    }
}

/// The poll engine can take `e` in state `s`: where a block arrives, its
/// latency fits in an `i64`.
pub open spec fn poll_event_ok(s: PollState, e: PollEvent) -> bool {
    match (s, e) {
        (PollState::AwaitingBlock { before, .. }, PollEvent::BlockFetched { now, .. }) => latency_fits(before, now),
        _ => true,
    }
}

/// The poll engine's next state and action. A failed request ends the tick
/// without a record; an event that does not fit the state changes nothing and
/// repeats what the state waits for.
pub open spec fn poll_next(name: String, s: PollState, e: PollEvent) -> (PollState, PollAction) {
    match (s, e) {
        (PollState::Idle, PollEvent::Tick { now }) => (
            PollState::AwaitingNumber { before: now },
            PollAction::RequestLatest,
        ),
        (PollState::AwaitingNumber { before }, PollEvent::NumberFetched { number }) => (
            PollState::AwaitingBlock { before, number },
            PollAction::RequestBlock { number },
        ),
        (PollState::AwaitingNumber { .. }, PollEvent::NumberFailed) => (
            PollState::Idle,
            PollAction::EndTick { record: None, sleep_ms: POLL_PERIOD_MS },
        ),
        (PollState::AwaitingBlock { before, number }, PollEvent::BlockFetched { timestamp, now }) => (
            PollState::Idle,
            PollAction::EndTick {
                record: Some(poll_record(name, number, timestamp, before, now)),
                sleep_ms: POLL_PERIOD_MS,
            },
        ),
        (PollState::AwaitingBlock { .. }, PollEvent::BlockMissing) => (
            PollState::Idle,
            PollAction::EndTick { record: None, sleep_ms: POLL_PERIOD_MS },
        ),
        _ => (s, poll_pending(s)),
    }
}

/// The decisions of one polling monitor: each tick, fetch the latest block
/// number and that block, and emit a record with the measured latency.
#[derive(Debug, Clone)]
pub struct PollMonitor {
    pub name: String,
    pub state: PollState,
}

impl PollMonitor {
    /// A monitor whose records carry `name`; it waits for its first tick.
    pub fn new(name: String) -> (r: Self)
        ensures
            r.name == name,
            r.state == PollState::Idle,
    {
        PollMonitor { name, state: PollState::Idle }
    }

    /// What the monitor waits for now.
    pub fn pending(&self) -> (r: PollAction)
        ensures
            r == poll_pending(self.state),
    {
        match self.state {
            PollState::Idle => PollAction::AwaitTick,
            PollState::AwaitingNumber { .. } => PollAction::RequestLatest,
            PollState::AwaitingBlock { number, .. } => PollAction::RequestBlock { number },
        }
    }

    /// Whether `e` can be taken now (see `step`).
    pub fn accepts(&self, e: PollEvent) -> (r: bool)
        ensures
            r == poll_event_ok(self.state, e),
    {
        match (self.state, e) {
            (PollState::AwaitingBlock { before, .. }, PollEvent::BlockFetched { now, .. }) => {
                now.checked_sub(before).is_some()
            },
            _ => true,
        }
    }

    /// Takes in one event and says what to do next.
    pub fn step(&mut self, e: PollEvent) -> (r: PollAction)
        requires
            poll_event_ok(old(self).state, e),
        ensures
            final(self).name == old(self).name,
            (final(self).state, r) == poll_next(old(self).name, old(self).state, e),
    {
        match (self.state, e) {
            (PollState::Idle, PollEvent::Tick { now }) => {
                self.state = PollState::AwaitingNumber { before: now };
                PollAction::RequestLatest
            },
            (PollState::AwaitingNumber { before }, PollEvent::NumberFetched { number }) => {
                self.state = PollState::AwaitingBlock { before, number };
                PollAction::RequestBlock { number }
            },
            (PollState::AwaitingNumber { .. }, PollEvent::NumberFailed) => {
                self.state = PollState::Idle;
                PollAction::EndTick { record: None, sleep_ms: POLL_PERIOD_MS }
            },
            (PollState::AwaitingBlock { before, number }, PollEvent::BlockFetched { timestamp, now }) => {
                let record = make_poll_record(&self.name, number, timestamp, before, now);
                self.state = PollState::Idle;
                PollAction::EndTick { record: Some(record), sleep_ms: POLL_PERIOD_MS }
            },
            (PollState::AwaitingBlock { .. }, PollEvent::BlockMissing) => {
                self.state = PollState::Idle;
                PollAction::EndTick { record: None, sleep_ms: POLL_PERIOD_MS }
            },
            _ => self.pending(),
        }
    }
}

/// The state reached and the actions taken by a stream engine that starts in
/// `s` and takes `events` in order: what successive calls of
/// `StreamMonitor::step` return, since each call returns `stream_next`.
pub open spec fn stream_run(name: String, s: StreamState, events: Seq<StreamEvent>) -> (
    StreamState,
    Seq<StreamAction>,
)
    decreases events.len(),
{
    if events.len() == 0 {
        (s, seq![])
    } else {
        let (s1, a) = stream_next(name, s, events[0]);
        let rest = stream_run(name, s1, events.drop_first());
        (rest.0, seq![a] + rest.1)
    }
}

/// `k` failed connection attempts, each followed by the end of its backoff.
pub open spec fn failed_attempts(k: nat) -> Seq<StreamEvent>
    decreases k,
{
    if k == 0 {
        seq![]
    } else {
        seq![StreamEvent::ConnectFailed, StreamEvent::BackoffElapsed] + failed_attempts((k - 1) as nat)
    }
}

/// `k` rounds of waiting the fixed backoff and connecting again.
pub open spec fn backoff_rounds(k: nat) -> Seq<StreamAction>
    decreases k,
{
    if k == 0 {
        seq![]
    } else {
        seq![StreamAction::WaitBackoff { ms: RECONNECT_BACKOFF_MS }, StreamAction::Connect]
            + backoff_rounds((k - 1) as nat)
    }
}

/// A connecting stream engine never gives up: after any number `k` of failed
/// attempts it has waited the fixed backoff before each new attempt, is
/// connecting again, and goes on from there as if nothing had failed.
pub proof fn lemma_stream_reconnects(name: String, k: nat, rest: Seq<StreamEvent>)
    ensures
        stream_run(name, StreamState::Connecting, failed_attempts(k) + rest) == (
            stream_run(name, StreamState::Connecting, rest).0,
            backoff_rounds(k) + stream_run(name, StreamState::Connecting, rest).1,
        ),
    decreases k,
{
    if k == 0 {
        assert(failed_attempts(k) + rest =~= rest);
        assert(backoff_rounds(k) + stream_run(name, StreamState::Connecting, rest).1
            =~= stream_run(name, StreamState::Connecting, rest).1);
    } else {
        let k1 = (k - 1) as nat;
        let evs = failed_attempts(k) + rest;
        let tail = failed_attempts(k1) + rest;
        lemma_stream_reconnects(name, k1, rest);
        assert(evs[0] == StreamEvent::ConnectFailed);
        assert(evs.drop_first()[0] == StreamEvent::BackoffElapsed);
        assert(evs.drop_first().drop_first() =~= tail);
        let r1 = stream_run(name, StreamState::Disconnected, evs.drop_first());
        assert(r1 == (
            stream_run(name, StreamState::Connecting, tail).0,
            seq![StreamAction::Connect] + stream_run(name, StreamState::Connecting, tail).1,
        ));
        let inner = stream_run(name, StreamState::Connecting, rest);
        assert(seq![StreamAction::WaitBackoff { ms: RECONNECT_BACKOFF_MS }] + (seq![
            StreamAction::Connect,
        ] + (backoff_rounds(k1) + inner.1)) =~= backoff_rounds(k) + inner.1);
    }
}

/// The connection attempt after a failure comes only after the fixed backoff:
/// a failed attempt leads to the wait, and a waiting engine connects again on
/// the end of the wait and on nothing else.
pub proof fn lemma_stream_backoff_before_retry(name: String, e: StreamEvent)
    ensures
        stream_next(name, StreamState::Connecting, StreamEvent::ConnectFailed) == (
            StreamState::Disconnected,
            StreamAction::WaitBackoff { ms: RECONNECT_BACKOFF_MS },
        ),
        stream_next(name, StreamState::Subscribed, StreamEvent::StreamEnded) == (
            StreamState::Disconnected,
            StreamAction::WaitBackoff { ms: RECONNECT_BACKOFF_MS },
        ),
        stream_next(name, StreamState::Disconnected, e).1 is Connect <==> e == StreamEvent::BackoffElapsed,
{
}

/// Every event is a header.
pub open spec fn all_headers(events: Seq<StreamEvent>) -> bool {
    forall|i: int| 0 <= i < events.len() ==> (#[trigger] events[i]) is Header
}

/// The record of a header event.
pub open spec fn header_record(name: String, e: StreamEvent) -> Metrics {
    match e {
        StreamEvent::Header { number, timestamp, now } => stream_record(name, number, timestamp, now),
        _ => stream_record(name, 0, 0, 0),
    }
}

/// Handing records to the sink never stops a subscribed engine, whatever
/// becomes of their delivery: each header gives one record, in order, and the
/// engine stays subscribed.
pub proof fn lemma_stream_emits_every_header(name: String, events: Seq<StreamEvent>)
    requires
        all_headers(events),
    ensures
        stream_run(name, StreamState::Subscribed, events).0 == StreamState::Subscribed,
        stream_run(name, StreamState::Subscribed, events).1.len() == events.len(),
        forall|i: int|
            0 <= i < events.len() ==> #[trigger] stream_run(name, StreamState::Subscribed, events).1[i]
                == StreamAction::Emit(header_record(name, events[i])),
    decreases events.len(),
{
    if events.len() > 0 {
        let rest = events.drop_first();
        assert(all_headers(rest)) by {
            assert forall|i: int| 0 <= i < rest.len() implies (#[trigger] rest[i]) is Header by {
                assert(rest[i] == events[i + 1]);
            }
        }
        lemma_stream_emits_every_header(name, rest);
        assert(events[0] is Header);
        let run = stream_run(name, StreamState::Subscribed, events);
        let tail = stream_run(name, StreamState::Subscribed, rest);
        assert forall|i: int| 0 <= i < events.len() implies #[trigger] run.1[i]
            == StreamAction::Emit(header_record(name, events[i])) by {
            if i > 0 {
                assert(run.1[i] == tail.1[i - 1]);
                assert(rest[i - 1] == events[i]);
            }
        }
    }
}

/// A tick ends with the poll engine idle and ready for the next tick, whether
/// a record was handed to the sink or not.
pub proof fn lemma_poll_tick_ends_idle(name: String, s: PollState, e: PollEvent, now: i64)
    ensures
        (poll_next(name, s, e).1 is EndTick) ==> poll_next(name, s, e).0 == PollState::Idle,
        poll_next(name, PollState::Idle, (PollEvent::Tick { now })).0 == (PollState::AwaitingNumber {
            before: now,
        }),
{
}

/// Records built from the same header are equal but for the time of
/// observation, which follows the order of the calls.
pub proof fn lemma_stream_record_repeatable(
    name: String,
    number: u64,
    timestamp: u64,
    now1: i64,
    now2: i64,
)
    requires
        now1 <= now2,
    ensures
        stream_record(name, number, timestamp, now1).name == stream_record(name, number, timestamp, now2).name,
        stream_record(name, number, timestamp, now1).block_height == stream_record(
            name,
            number,
            timestamp,
            now2,
        ).block_height,
        stream_record(name, number, timestamp, now1).block_timestamp == stream_record(
            name,
            number,
            timestamp,
            now2,
        ).block_timestamp,
        stream_record(name, number, timestamp, now1).diff == stream_record(name, number, timestamp, now2).diff,
        stream_record(name, number, timestamp, now1).os_timestamp <= stream_record(
            name,
            number,
            timestamp,
            now2,
        ).os_timestamp,
{
}

/// A polled record's latency is the time from the start of its tick to the
/// arrival of its block, and its time of observation is the start of the tick,
/// whatever the tick period.
pub proof fn lemma_poll_latency(name: String, before: i64, number: u64, timestamp: u64, now: i64)
    requires
        latency_fits(before, now),
    ensures
        poll_next(name, (PollState::AwaitingBlock { before, number }), (PollEvent::BlockFetched {
            timestamp,
            now,
        })).1 == (PollAction::EndTick {
            record: Some(poll_record(name, number, timestamp, before, now)),
            sleep_ms: POLL_PERIOD_MS,
        }),
        poll_record(name, number, timestamp, before, now).diff == now - before,
        poll_record(name, number, timestamp, before, now).os_timestamp == before,
        poll_record(name, number, timestamp, before, now).block_height == number,
{
}

} // verus!
