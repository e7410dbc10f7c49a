use vstd::prelude::*;
use crate::cache::Cache;
use crate::config::Config;
use crate::harvest::{Data, HostIdentity, Readings, snapshot_of};

verus! {

/// How the server answered a batch.
#[derive(Debug, Clone, Copy, PartialEq, Eq, Structural)]
pub enum StatusClass {
    /// The batch was stored: the cache may be emptied.
    Accepted,
    /// The server does not know this host yet ("precondition failed"); the host
    /// may register itself and send the batch once more.
    RetryableServerState,
    /// Any other answer: the batch is kept for the next sync boundary.
    Rejected,
}

/// What came back from one attempt to send the cache.
#[derive(Debug, Clone, Copy, PartialEq, Eq, Structural)]
pub enum SendOutcome {
    /// The server answered with this HTTP status code.
    Status(u16),
    /// The request could not be carried out.
    NetworkError,
    /// No answer came within the time allowed.
    TimedOut,
}

pub const STATUS_OK: u16 = 200;

pub const STATUS_PRECONDITION_FAILED: u16 = 412;

pub open spec fn status_class_of(code: u16) -> StatusClass {
    if code == STATUS_OK {
        StatusClass::Accepted
    } else if code == STATUS_PRECONDITION_FAILED {
        StatusClass::RetryableServerState
    } else {
        StatusClass::Rejected
    }
}

/// Sorts an HTTP status code into what the agent does about it.
pub fn classify_status(code: u16) -> (r: StatusClass)
    ensures
        r == status_class_of(code),
{
    if code == STATUS_OK {
        StatusClass::Accepted
    } else if code == STATUS_PRECONDITION_FAILED {
        StatusClass::RetryableServerState
    } else {
        StatusClass::Rejected
    }
}

/// Whether the server acknowledged the batch.
pub open spec fn accepted(outcome: SendOutcome) -> bool {
    outcome matches SendOutcome::Status(code) && status_class_of(code) == StatusClass::Accepted
}

/// Whether the server asked the host to register first.
pub open spec fn needs_registration(outcome: SendOutcome) -> bool {
    outcome matches SendOutcome::Status(code) && status_class_of(code)
        == StatusClass::RetryableServerState
}

/// The cache after a delivery attempt: emptied when the server acknowledged the
/// batch, untouched otherwise.
pub open spec fn flushed<T>(cache: Seq<T>, accepted: bool) -> Seq<T> {
    if accepted {
        Seq::empty()
    } else {
        cache
    }
}

/// The cache after the memory safeguard: once it holds `2 * cache_size`
/// snapshots or more, its `cache_size / 2` oldest ones are dropped.
pub open spec fn drained<T>(cache: Seq<T>, cache_size: int) -> Seq<T> {
    if cache.len() >= 2 * cache_size {
        cache.subrange(cache_size / 2, cache.len() as int)
    } else {
        cache
    }
}

/// Where the scheduler stands within a tick.
#[derive(Debug, Clone, Copy, PartialEq, Eq, Structural)]
pub enum Phase {
    /// Between two ticks: the next event is the start of a tick.
    AwaitingTick,
    /// The host is being sampled.
    Harvesting,
    /// The cache is being sent; `retry` tells whether this is the one extra
    /// attempt that follows a registration.
    Syncing { retry: bool },
    /// The host is registering itself with the server.
    Registering,
}

/// What the caller reports to the scheduler.
pub enum Event {
    /// A new tick begins.
    Tick,
    /// The host was sampled as asked.
    Harvested(Readings),
    /// The cache was sent as asked, with this result.
    Sent(SendOutcome),
    /// The registration request was sent as asked (whatever its result).
    Registered,
}

/// What the scheduler asks the caller to do next.
#[derive(Debug, Clone, Copy, PartialEq, Eq, Structural)]
pub enum Action {
    /// Sample every metric source; read the load average only when asked.
    Harvest { refresh_loadavg: bool },
    /// Send the cache's entries, in order, under the send timeout.
    Publish,
    /// Send the registration request.
    Register,
    /// Sleep until the next tick is due.
    Sleep,
}

/// The harvest/sync scheduler: it owns the cache of undelivered snapshots and
/// decides, tick after tick, when to sample, when to flush and when to drain.
pub struct SpClient {
    /// Target length of the cache; the safeguard drains it at twice this length.
    pub cache_size: i64,
    pub identity: HostIdentity,
    /// The host's uptime as last read.
    pub uptime: i64,
    pub data_cache: Cache<Data>,
    /// Ticks between two flush attempts.
    pub sync_threshold: i64,
    /// Ticks between two load-average refreshes.
    pub loadavg_threshold: i64,
    /// The current tick, counted from 0; -1 before the first one.
    pub sync_track: i64,
    /// Whether a "precondition failed" answer leads to a registration.
    pub registration: bool,
    pub phase: Phase,
    /// Every snapshot ever harvested, oldest first.
    pub history: Ghost<Seq<Data>>,
    /// Position in `history` of the oldest snapshot still buffered.
    pub kept_from: Ghost<int>,
}

/// Whether tick `t` refreshes the load average.
pub open spec fn loadavg_due(t: int, loadavg_threshold: int) -> bool {
    t % loadavg_threshold == 0
}

/// Whether tick `t` attempts a flush.
pub open spec fn sync_due(t: int, sync_threshold: int) -> bool {
    t % sync_threshold == 0
}

impl SpClient {
    pub open spec fn wf(&self) -> bool {
        &&& self.sync_threshold >= 1
        &&& self.loadavg_threshold >= 1
        &&& self.cache_size >= self.sync_threshold
        &&& self.sync_track >= -1
        &&& (self.phase != Phase::AwaitingTick ==> self.sync_track >= 0)
        &&& 0 <= self.kept_from@ <= self.history@.len()
        &&& self.data_cache@ == self.history@.subrange(self.kept_from@, self.history@.len() as int)
    }

    /// Whether the current tick refreshes the load average.
    pub open spec fn refresh_due(&self) -> bool {
        loadavg_due(self.sync_track as int, self.loadavg_threshold as int)
    }

    /// The action that the current phase waits on.
    pub open spec fn pending_action(&self) -> Action {
        match self.phase {
            Phase::AwaitingTick => Action::Sleep,
            Phase::Harvesting => Action::Harvest { refresh_loadavg: self.refresh_due() },
            Phase::Syncing { .. } => Action::Publish,
            Phase::Registering => Action::Register,
        }
    }

    /// The settings that no step changes.
    pub open spec fn same_settings(&self, other: &SpClient) -> bool {
        &&& self.cache_size == other.cache_size
        &&& self.sync_threshold == other.sync_threshold
        &&& self.loadavg_threshold == other.loadavg_threshold
        &&& self.registration == other.registration
        &&& self.identity == other.identity
    }

    /// A scheduler before its first tick, with an empty cache.
    pub fn new(config: &Config, identity: HostIdentity) -> (r: SpClient)
        requires
            config.wf(),
        ensures
            r.wf(),
            r.sync_threshold == config.sync_threshold(),
            r.loadavg_threshold == config.loadavg_threshold(),
            r.cache_size == if config.cache_size > config.sync_threshold() {
                config.cache_size as int
            } else {
                config.sync_threshold()
            },
            r.sync_track == -1,
            r.phase == Phase::AwaitingTick,
            r.data_cache@ == Seq::<Data>::empty(),
            r.registration == config.sso_url is Some,
            r.identity == identity,
            r.uptime == 0,
    {
        let sync_threshold = (config.harvest_interval * config.syncing_interval) as i64;
        let loadavg_threshold = (config.harvest_interval * config.loadavg_interval) as i64;
        assert(config.harvest_interval * config.syncing_interval >= 1) by (nonlinear_arith)
            requires config.harvest_interval >= 1, config.syncing_interval >= 1;
        assert(config.harvest_interval * config.loadavg_interval >= 1) by (nonlinear_arith)
            requires config.harvest_interval >= 1, config.loadavg_interval >= 1;
        let cache_size = if config.cache_size > sync_threshold {
            config.cache_size
        } else {
            sync_threshold
        };
        let client = SpClient {
            cache_size,
            identity,
            uptime: 0,
            data_cache: Cache::new(),
            sync_threshold,
            loadavg_threshold,
            sync_track: -1,
            registration: config.sso_url.is_some(),
            phase: Phase::AwaitingTick,
            history: Ghost(Seq::empty()),
            kept_from: Ghost(0),
        };
        assert(client.data_cache@ =~= client.history@.subrange(0, 0));
        client
    }
}

impl SpClient {
    /// The snapshot that the current tick makes from `readings`.
    pub open spec fn snapshot_from(&self, readings: Readings) -> Data {
        snapshot_of(
            self.identity,
            self.uptime,
            self.sync_threshold,
            self.refresh_due(),
            readings,
        )
    }

    /// Samples the host into a snapshot and appends it to the cache.
    fn harvest_data(&mut self, readings: Readings)
        requires
            old(self).wf(),
            old(self).sync_track >= 0,
        ensures
            final(self).wf(),
            final(self).same_settings(old(self)),
            final(self).sync_track == old(self).sync_track,
            final(self).phase == old(self).phase,
            final(self).history@ == old(self).history@.push(old(self).snapshot_from(readings)),
            final(self).kept_from@ == old(self).kept_from@,
            final(self).data_cache@ == old(self).data_cache@.push(
                old(self).snapshot_from(readings),
            ),
            final(self).uptime == old(self).snapshot_from(readings).uptime,
    {
        let refresh = self.sync_track % self.loadavg_threshold == 0;
        let snapshot = Data::eat_data(
            &self.identity,
            self.uptime,
            self.sync_threshold,
            refresh,
            readings,
        );
        let ghost snap = snapshot;
        self.uptime = snapshot.uptime;
        self.data_cache.append(snapshot);
        self.history = Ghost(self.history@.push(snap));
        assert(self.data_cache@ =~= self.history@.subrange(
            self.kept_from@,
            self.history@.len() as int,
        ));
    }

    /// The memory safeguard: once the cache holds `2 * cache_size` snapshots or
    /// more, drops its `cache_size / 2` oldest ones.
    fn enforce_cache_limit(&mut self)
        requires
            old(self).wf(),
        ensures
            final(self).wf(),
            final(self).same_settings(old(self)),
            final(self).sync_track == old(self).sync_track,
            final(self).phase == old(self).phase,
            final(self).uptime == old(self).uptime,
            final(self).history == old(self).history,
            final(self).data_cache@ == drained(old(self).data_cache@, old(self).cache_size as int),
    {
        let len = self.data_cache.len();
        if len as u64 / 2 >= self.cache_size as u64 {
            let to_drain = (self.cache_size / 2) as usize;
            self.data_cache.drain_oldest(to_drain);
            self.kept_from = Ghost(self.kept_from@ + to_drain);
            assert(self.data_cache@ =~= self.history@.subrange(
                self.kept_from@,
                self.history@.len() as int,
            ));
        }
    }

    /// Applies the server's answer to the cache: only an acknowledged batch
    /// empties it. Returns whether the host should register and send once more.
    fn handle_response(&mut self, outcome: SendOutcome, retry: bool) -> (r: bool)
        requires
            old(self).wf(),
        ensures
            final(self).wf(),
            final(self).same_settings(old(self)),
            final(self).sync_track == old(self).sync_track,
            final(self).phase == old(self).phase,
            final(self).uptime == old(self).uptime,
            final(self).history == old(self).history,
            final(self).data_cache@ == flushed(old(self).data_cache@, accepted(outcome)),
            r == (needs_registration(outcome) && !retry && old(self).registration),
    {
        match outcome {
            SendOutcome::Status(code) => {
                let class = classify_status(code);
                match class {
                    StatusClass::Accepted => {
                        self.data_cache.clear();
                        self.kept_from = Ghost(self.history@.len() as int);
                        assert(self.data_cache@ =~= self.history@.subrange(
                            self.kept_from@,
                            self.history@.len() as int,
                        ));
                        false
                    },
                    StatusClass::RetryableServerState => !retry && self.registration,
                    StatusClass::Rejected => false,
                }
            },
            SendOutcome::NetworkError => false,
            SendOutcome::TimedOut => false,
        }
    }

    /// Ends the tick: applies the memory safeguard and waits for the next tick.
    fn finish_tick(&mut self) -> (r: Action)
        requires
            old(self).wf(),
            old(self).sync_track >= 0,
        ensures
            final(self).wf(),
            final(self).same_settings(old(self)),
            final(self).sync_track == old(self).sync_track,
            final(self).phase == Phase::AwaitingTick,
            final(self).uptime == old(self).uptime,
            final(self).history == old(self).history,
            final(self).data_cache@ == drained(old(self).data_cache@, old(self).cache_size as int),
            r == Action::Sleep,
    {
        self.enforce_cache_limit();
        self.phase = Phase::AwaitingTick;
        Action::Sleep
    }

    /// Moves the scheduler on by one event and says what the caller must do next.
    ///
    /// A tick starts with `Tick`, which asks for a sample; the load average is
    /// refreshed on every `loadavg_threshold`-th tick. The sample is appended to
    /// the cache; on every `sync_threshold`-th tick the cache is then sent. Only
    /// an acknowledged batch empties the cache. A "precondition failed" answer
    /// leads, when registration is configured, to one registration and one
    /// extra attempt, never more. Every tick ends with the memory safeguard and
    /// a sleep. An event that the current phase does not wait for changes
    /// nothing and repeats the pending action.
    pub fn step(&mut self, event: Event) -> (r: Action)
        requires
            old(self).wf(),
            old(self).sync_track < i64::MAX,
        ensures
            final(self).wf(),
            final(self).same_settings(old(self)),
            match (old(self).phase, event) {
                (Phase::AwaitingTick, Event::Tick) => {
                    &&& final(self).sync_track == old(self).sync_track + 1
                    &&& final(self).phase == Phase::Harvesting
                    &&& final(self).data_cache@ == old(self).data_cache@
                    &&& final(self).history == old(self).history
                    &&& final(self).uptime == old(self).uptime
                    &&& r == Action::Harvest {
                        refresh_loadavg: loadavg_due(
                            final(self).sync_track as int,
                            old(self).loadavg_threshold as int,
                        ),
                    }
                },
                (Phase::Harvesting, Event::Harvested(readings)) => {
                    let snapshot = old(self).snapshot_from(readings);
                    let grown = old(self).data_cache@.push(snapshot);
                    &&& final(self).sync_track == old(self).sync_track
                    &&& final(self).history@ == old(self).history@.push(snapshot)
                    &&& final(self).uptime == snapshot.uptime
                    &&& if sync_due(old(self).sync_track as int, old(self).sync_threshold as int) {
                        &&& final(self).phase == (Phase::Syncing { retry: false })
                        &&& final(self).data_cache@ == grown
                        &&& r == Action::Publish
                    } else {
                        &&& final(self).phase == Phase::AwaitingTick
                        &&& final(self).data_cache@ == drained(grown, old(self).cache_size as int)
                        &&& r == Action::Sleep
                    }
                },
                (Phase::Syncing { retry }, Event::Sent(outcome)) => {
                    &&& final(self).sync_track == old(self).sync_track
                    &&& final(self).history == old(self).history
                    &&& final(self).uptime == old(self).uptime
                    &&& if needs_registration(outcome) && !retry && old(self).registration {
                        &&& final(self).phase == Phase::Registering
                        &&& final(self).data_cache@ == old(self).data_cache@
                        &&& r == Action::Register
                    } else {
                        &&& final(self).phase == Phase::AwaitingTick
                        &&& final(self).data_cache@ == drained(
                            flushed(old(self).data_cache@, accepted(outcome)),
                            old(self).cache_size as int,
                        )
                        &&& r == Action::Sleep
                    }
                },
                (Phase::Registering, Event::Registered) => {
                    &&& final(self).sync_track == old(self).sync_track
                    &&& final(self).history == old(self).history
                    &&& final(self).uptime == old(self).uptime
                    &&& final(self).phase == (Phase::Syncing { retry: true })
                    &&& final(self).data_cache@ == old(self).data_cache@
                    &&& r == Action::Publish
                },
                _ => *final(self) == *old(self) && r == old(self).pending_action(),
            },
    {
        match (self.phase, event) {
            (Phase::AwaitingTick, Event::Tick) => {
                self.sync_track = self.sync_track + 1;
                self.phase = Phase::Harvesting;
                Action::Harvest { refresh_loadavg: self.sync_track % self.loadavg_threshold == 0 }
            },
            (Phase::Harvesting, Event::Harvested(readings)) => {
                self.harvest_data(readings);
                if self.sync_track % self.sync_threshold == 0 {
                    self.phase = Phase::Syncing { retry: false };
                    Action::Publish
                } else {
                    self.finish_tick()
                }
            },
            (Phase::Syncing { retry }, Event::Sent(outcome)) => {
                if self.handle_response(outcome, retry) {
                    self.phase = Phase::Registering;
                    Action::Register
                } else {
                    self.finish_tick()
                }
            },
            (Phase::Registering, Event::Registered) => {
                self.phase = Phase::Syncing { retry: true };
                Action::Publish
            },
            (Phase::AwaitingTick, _) => Action::Sleep,
            (Phase::Harvesting, _) => Action::Harvest {
                refresh_loadavg: self.sync_track % self.loadavg_threshold == 0,
            },
            (Phase::Syncing { .. }, _) => Action::Publish,
            (Phase::Registering, _) => Action::Register,
        }
    }
}

/// A batch that the server acknowledged leaves the cache empty, and the memory
/// safeguard that follows keeps it empty.
pub proof fn lemma_accepted_flush_empties<T>(cache: Seq<T>, cache_size: int)
    requires
        cache_size >= 1,
    ensures
        flushed(cache, true).len() == 0,
        drained(flushed(cache, true), cache_size).len() == 0,
{
}

/// A failed delivery loses no snapshot: the cache keeps its length and its
/// entries, and below the safeguard's threshold the end of the tick keeps them too.
pub proof fn lemma_failed_flush_keeps<T>(cache: Seq<T>, cache_size: int)
    requires
        cache_size >= 1,
    ensures
        flushed(cache, false) == cache,
        flushed(cache, false).len() == cache.len(),
        cache.len() < 2 * cache_size ==> drained(flushed(cache, false), cache_size) == cache,
{
}

/// Once the cache holds `2 * cache_size` snapshots or more, the safeguard
/// removes exactly `cache_size / 2` of them: the oldest ones. The most recent
/// ones stay, in their order.
pub proof fn lemma_drain_drops_oldest<T>(cache: Seq<T>, cache_size: int)
    requires
        cache_size >= 1,
        cache.len() >= 2 * cache_size,
    ensures
        drained(cache, cache_size).len() == cache.len() - cache_size / 2,
        forall|i: int|
            0 <= i < drained(cache, cache_size).len() ==> #[trigger] drained(cache, cache_size)[i]
                == cache[i + cache_size / 2],
{
}

/// The cache always holds the most recent snapshots that were harvested, with
/// none missing between them, in the order they were harvested; drains and
/// flushes only ever remove its oldest entries.
pub proof fn lemma_cache_in_harvest_order(client: &SpClient)
    requires
        client.wf(),
    ensures
        exists|k: int|
            0 <= k <= client.history@.len() && client.data_cache@ == client.history@.subrange(
                k,
                client.history@.len() as int,
            ),
{
    assert(0 <= client.kept_from@ <= client.history@.len());
}

} // verus!
