use speculare_client::cache::Cache;
use speculare_client::client::{classify_status, Action, Event, Phase, SendOutcome, SpClient, StatusClass};
use speculare_client::config::{
    default_cache_size, default_harvest, default_loadavg, default_syncing, Config, ConfigError,
    Settings,
};
use speculare_client::harvest::{Data, HostIdentity, HostReading, Readings};
use sys_metrics::cpu::{CpuStats, CpuTimes, LoadAvg};

fn settings(harvest: u64, syncing: u64, loadavg: u64, cache_size: i64, sso: bool) -> Settings {
    Settings {
        api_token: "token".to_string(),
        api_url: "https://example.org/api".to_string(),
        harvest_interval: harvest,
        syncing_interval: syncing,
        loadavg_interval: loadavg,
        cache_size,
        sso_url: if sso { Some("https://example.org/sso".to_string()) } else { None },
    }
}

fn identity() -> HostIdentity {
    HostIdentity {
        system: "Linux".to_string(),
        os_version: "6.1".to_string(),
        hostname: "host".to_string(),
    }
}

fn client(harvest: u64, syncing: u64, loadavg: u64, cache_size: i64, sso: bool) -> SpClient {
    let config = Config::new("uuid".to_string(), settings(harvest, syncing, loadavg, cache_size, sso))
        .unwrap();
    SpClient::new(&config, identity())
}

/// A full sample whose uptime tells the ticks apart.
fn readings(uptime: u64) -> Readings {
    Readings {
        host: Some(HostReading {
            uptime,
            loadavg: LoadAvg { one: 1.0, five: 0.5, fifteen: 0.25 },
        }),
        cpu_stats: Some(CpuStats::default()),
        cpu_times: Some(CpuTimes::default()),
        disks: Some(Vec::new()),
        ioblocks: Some(Vec::new()),
        memory: Some(sys_metrics::memory::Memory::default()),
        swap: Some(sys_metrics::memory::Swap::default()),
        ionets: Some(Vec::new()),
        taken_at: chrono::NaiveDateTime::default(),
    }
}

fn uptimes(c: &SpClient) -> Vec<i64> {
    c.data_cache.entries().iter().map(|d| d.uptime).collect()
}

/// Runs one tick in which every delivery attempt ends with `outcome`; returns
/// whether a delivery was attempted.
fn run_tick(c: &mut SpClient, uptime: u64, outcome: SendOutcome) -> bool {
    let harvest = c.step(Event::Tick);
    assert!(matches!(harvest, Action::Harvest { .. }));
    let mut action = c.step(Event::Harvested(readings(uptime)));
    let mut published = false;
    loop {
        match action {
            Action::Publish => {
                published = true;
                action = c.step(Event::Sent(outcome));
            }
            Action::Register => action = c.step(Event::Registered),
            Action::Sleep => break,
            Action::Harvest { .. } => panic!("unexpected harvest"),
        }
    }
    assert_eq!(c.phase, Phase::AwaitingTick);
    published
}

#[test]
fn config_defaults() {
    assert_eq!(default_harvest(), 1);
    assert_eq!(default_syncing(), 1);
    assert_eq!(default_loadavg(), 5);
    assert_eq!(default_cache_size(), 16);
}

#[test]
fn config_new_keeps_settings() {
    let c = Config::new("abc".to_string(), settings(2, 3, 4, 10, true)).unwrap();
    assert_eq!(c.uuid, "abc");
    assert_eq!(c.api_token, "token");
    assert_eq!(c.harvest_interval, 2);
    assert_eq!(c.syncing_interval, 3);
    assert_eq!(c.loadavg_interval, 4);
    assert_eq!(c.cache_size, 10);
    assert_eq!(c.sso_url.as_deref(), Some("https://example.org/sso"));
}

#[test]
fn config_new_rejects_zero_intervals() {
    assert!(matches!(
        Config::new("u".to_string(), settings(0, 1, 1, 16, false)),
        Err(ConfigError::ZeroHarvestInterval)
    ));
    assert!(matches!(
        Config::new("u".to_string(), settings(1, 0, 1, 16, false)),
        Err(ConfigError::ZeroSyncingInterval)
    ));
    assert!(matches!(
        Config::new("u".to_string(), settings(1, 1, 0, 16, false)),
        Err(ConfigError::ZeroLoadavgInterval)
    ));
}

#[test]
fn config_new_rejects_overflowing_thresholds() {
    assert!(matches!(
        Config::new("u".to_string(), settings(1 << 32, 1 << 31, 1, 16, false)),
        Err(ConfigError::ThresholdOverflow)
    ));
    assert!(matches!(
        Config::new("u".to_string(), settings(3, 1, u64::MAX / 2, 16, false)),
        Err(ConfigError::ThresholdOverflow)
    ));
    assert!(Config::new("u".to_string(), settings(1 << 31, (1 << 32) - 1, 1, 16, false)).is_ok());
}

#[test]
fn client_thresholds() {
    let c = client(1, 5, 5, 16, false);
    assert_eq!(c.sync_threshold, 5);
    assert_eq!(c.loadavg_threshold, 5);
    assert_eq!(c.cache_size, 16);
    assert_eq!(c.sync_track, -1);
    assert_eq!(c.data_cache.len(), 0);
    let c = client(2, 30, 3, 16, true);
    assert_eq!(c.sync_threshold, 60);
    assert_eq!(c.loadavg_threshold, 6);
    assert_eq!(c.cache_size, 60);
    assert!(c.registration);
}

#[test]
fn classify_status_codes() {
    assert_eq!(classify_status(200), StatusClass::Accepted);
    assert_eq!(classify_status(412), StatusClass::RetryableServerState);
    assert_eq!(classify_status(500), StatusClass::Rejected);
    assert_eq!(classify_status(201), StatusClass::Rejected);
}

#[test]
fn loadavg_refreshed_on_its_ticks_only() {
    let mut c = client(1, 100, 3, 1000, false);
    for t in 0..12u64 {
        let action = c.step(Event::Tick);
        assert_eq!(action, Action::Harvest { refresh_loadavg: t % 3 == 0 });
        let next = c.step(Event::Harvested(readings(t)));
        let last = c.data_cache.entries().last().unwrap();
        assert_eq!(last.load_avg.is_some(), t % 3 == 0);
        if next == Action::Publish {
            c.step(Event::Sent(SendOutcome::Status(200)));
        }
    }
}

#[test]
fn flush_attempted_on_sync_boundaries_only() {
    let mut c = client(1, 5, 5, 16, false);
    for t in 0..23u64 {
        let published = run_tick(&mut c, t, SendOutcome::NetworkError);
        assert_eq!(published, t % 5 == 0, "tick {}", t);
        assert_eq!(c.sync_track, t as i64);
    }
}

#[test]
fn accepted_flush_empties_cache() {
    let mut c = client(1, 5, 5, 16, false);
    for t in 0..4u64 {
        run_tick(&mut c, t, SendOutcome::Status(200));
    }
    // tick 0 flushed; ticks 1 to 3 are buffered
    assert_eq!(uptimes(&c), vec![1, 2, 3]);
    run_tick(&mut c, 4, SendOutcome::Status(200));
    run_tick(&mut c, 5, SendOutcome::Status(200));
    assert_eq!(c.data_cache.len(), 0);
}

#[test]
fn failed_flush_keeps_cache() {
    for outcome in [
        SendOutcome::TimedOut,
        SendOutcome::NetworkError,
        SendOutcome::Status(500),
        SendOutcome::Status(412),
    ] {
        let mut c = client(1, 5, 5, 16, false);
        for t in 0..5u64 {
            run_tick(&mut c, t, SendOutcome::Status(200));
        }
        assert_eq!(uptimes(&c), vec![1, 2, 3, 4]);
        run_tick(&mut c, 5, outcome);
        assert_eq!(uptimes(&c), vec![1, 2, 3, 4, 5]);
    }
}

#[test]
fn drain_fires_exactly_at_twice_cache_size() {
    // harvest_interval=1, syncing_interval=5, cache_size=16: the transport always fails
    let mut c = client(1, 5, 5, 16, false);
    assert_eq!(c.sync_threshold, 5);
    let mut expected: Vec<i64> = Vec::new();
    let mut drains = 0;
    for t in 0..40u64 {
        let published = run_tick(&mut c, t, SendOutcome::TimedOut);
        assert_eq!(published, t % 5 == 0);
        expected.push(t as i64);
        if expected.len() >= 32 {
            expected.drain(0..8);
            drains += 1;
        }
        assert_eq!(uptimes(&c), expected, "tick {}", t);
    }
    assert_eq!(drains, 2);
    // after tick 31 the cache reached 32 and lost its 8 oldest; again after tick 39
    assert_eq!(c.data_cache.len(), 24);
    assert_eq!(uptimes(&c)[0], 16);
    assert_eq!(*uptimes(&c).last().unwrap(), 39);
}

#[test]
fn cache_keeps_harvest_order_across_drains() {
    let mut c = client(1, 3, 1, 4, false);
    for t in 0..50u64 {
        run_tick(&mut c, t, SendOutcome::Status(503));
        let u = uptimes(&c);
        for w in u.windows(2) {
            assert_eq!(w[1], w[0] + 1);
        }
        assert_eq!(*u.last().unwrap(), t as i64);
        assert!(u.len() < 8);
    }
}

#[test]
fn cache_operations() {
    let mut cache: Cache<u32> = Cache::new();
    cache.clear();
    assert!(cache.is_empty());
    assert_eq!(cache.entries(), &[] as &[u32]);
    for i in 0..6 {
        cache.append(i);
    }
    cache.drain_oldest(2);
    assert_eq!(cache.entries(), &[2, 3, 4, 5]);
    cache.append(6);
    assert_eq!(cache.entries(), &[2, 3, 4, 5, 6]);
    cache.drain_oldest(0);
    assert_eq!(cache.len(), 5);
    cache.clear();
    assert_eq!(cache.len(), 0);
    cache.clear();
    assert_eq!(cache.len(), 0);
}

#[test]
fn precondition_failed_registers_once_then_retries() {
    let mut c = client(1, 1, 1, 16, true);
    c.step(Event::Tick);
    assert_eq!(c.step(Event::Harvested(readings(7))), Action::Publish);
    assert_eq!(c.step(Event::Sent(SendOutcome::Status(412))), Action::Register);
    assert_eq!(c.phase, Phase::Registering);
    assert_eq!(c.data_cache.len(), 1);
    assert_eq!(c.step(Event::Registered), Action::Publish);
    assert_eq!(c.phase, Phase::Syncing { retry: true });
    assert_eq!(c.step(Event::Sent(SendOutcome::Status(200))), Action::Sleep);
    assert_eq!(c.data_cache.len(), 0);
}

#[test]
fn precondition_failed_twice_does_not_recurse() {
    let mut c = client(1, 1, 1, 16, true);
    c.step(Event::Tick);
    c.step(Event::Harvested(readings(7)));
    assert_eq!(c.step(Event::Sent(SendOutcome::Status(412))), Action::Register);
    assert_eq!(c.step(Event::Registered), Action::Publish);
    assert_eq!(c.step(Event::Sent(SendOutcome::Status(412))), Action::Sleep);
    assert_eq!(c.data_cache.len(), 1);
    assert_eq!(c.phase, Phase::AwaitingTick);
}

#[test]
fn precondition_failed_without_registration() {
    let mut c = client(1, 1, 1, 16, false);
    c.step(Event::Tick);
    c.step(Event::Harvested(readings(7)));
    assert_eq!(c.step(Event::Sent(SendOutcome::Status(412))), Action::Sleep);
    assert_eq!(c.data_cache.len(), 1);
}

#[test]
fn failed_source_leaves_only_its_field_absent() {
    let mut c = client(1, 1, 1, 16, false);
    c.step(Event::Tick);
    let mut r = readings(42);
    r.cpu_stats = None;
    assert_eq!(c.step(Event::Harvested(r)), Action::Publish);
    let d: &Data = &c.data_cache.entries()[0];
    assert!(d.cpu_stats.is_none());
    assert!(d.cpu_times.is_some());
    assert!(d.load_avg.is_some());
    assert!(d.disks.is_some());
    assert!(d.ioblocks.is_some());
    assert!(d.memory.is_some());
    assert!(d.swap.is_some());
    assert!(d.ionets.is_some());
    assert_eq!(d.uptime, 42);
    assert_eq!(d.hostname, "host");
    assert_eq!(d.sync_interval, 1);
    assert_eq!(c.step(Event::Sent(SendOutcome::Status(200))), Action::Sleep);
    assert_eq!(c.data_cache.len(), 0);
}

#[test]
fn failed_host_reader_keeps_last_uptime() {
    let mut c = client(1, 10, 1, 16, false);
    run_tick(&mut c, 30, SendOutcome::NetworkError);
    c.step(Event::Tick);
    let mut r = readings(0);
    r.host = None;
    c.step(Event::Harvested(r));
    let d = c.data_cache.entries().last().unwrap();
    assert_eq!(d.uptime, 30);
    assert!(d.load_avg.is_none());
    assert!(d.memory.is_some());
}

#[test]
fn unexpected_event_changes_nothing() {
    let mut c = client(1, 5, 2, 16, false);
    assert_eq!(c.step(Event::Registered), Action::Sleep);
    assert_eq!(c.sync_track, -1);
    assert_eq!(c.step(Event::Harvested(readings(1))), Action::Sleep);
    assert_eq!(c.data_cache.len(), 0);
    assert_eq!(c.step(Event::Tick), Action::Harvest { refresh_loadavg: true });
    assert_eq!(c.step(Event::Tick), Action::Harvest { refresh_loadavg: true });
    assert_eq!(c.sync_track, 0);
    assert_eq!(c.step(Event::Sent(SendOutcome::Status(200))), Action::Harvest { refresh_loadavg: true });
    assert_eq!(c.phase, Phase::Harvesting);
}
