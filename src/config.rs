use vstd::prelude::*;

verus! {

/// Largest value that the scheduler's thresholds may take.
pub const THRESHOLD_MAX: u64 = 9223372036854775807;

/// The settings as they are written in the configuration file.
pub struct Settings {
    pub api_token: String,
    pub api_url: String,
    pub harvest_interval: u64,
    pub syncing_interval: u64,
    pub loadavg_interval: u64,
    pub cache_size: i64,
    /// Where the host registers itself when the server does not know it yet;
    /// no registration is attempted without it.
    pub sso_url: Option<String>,
}

/// The validated configuration of the agent, built once at startup.
pub struct Config {
    pub uuid: String,
    pub api_token: String,
    pub api_url: String,
    pub harvest_interval: u64,
    pub syncing_interval: u64,
    pub loadavg_interval: u64,
    pub cache_size: i64,
    pub sso_url: Option<String>,
}

/// Why a set of settings cannot drive the agent.
#[derive(Debug, Clone, Copy, PartialEq, Eq, Structural)]
pub enum ConfigError {
    ZeroHarvestInterval,
    ZeroSyncingInterval,
    ZeroLoadavgInterval,
    /// `harvest_interval * syncing_interval` or `harvest_interval * loadavg_interval`
    /// does not fit in a signed 64-bit counter.
    ThresholdOverflow,
}

/// The error that `Config::new` reports for the given intervals, if any.
pub open spec fn settings_error(harvest: u64, syncing: u64, loadavg: u64) -> Option<ConfigError> {
    if harvest == 0 {
        Some(ConfigError::ZeroHarvestInterval)
    } else if syncing == 0 {
        Some(ConfigError::ZeroSyncingInterval)
    } else if loadavg == 0 {
        Some(ConfigError::ZeroLoadavgInterval)
    } else if harvest * syncing > THRESHOLD_MAX || harvest * loadavg > THRESHOLD_MAX {
        Some(ConfigError::ThresholdOverflow)
    } else {
        None
    }
}

impl Config {
    /// A configuration is usable when every interval is positive and both
    /// thresholds derived from them fit in the scheduler's counter.
    pub open spec fn wf(&self) -> bool {
        settings_error(self.harvest_interval, self.syncing_interval, self.loadavg_interval)
            is None
    }

    /// Ticks between two flush attempts.
    pub open spec fn sync_threshold(&self) -> int {
        self.harvest_interval * self.syncing_interval
    }

    /// Ticks between two load-average refreshes.
    pub open spec fn loadavg_threshold(&self) -> int {
        self.harvest_interval * self.loadavg_interval
    }

    /// Validates the settings read at startup and attaches the host's identity.
    pub fn new(uuid: String, settings: Settings) -> (r: Result<Config, ConfigError>)
        ensures
            match settings_error(
                settings.harvest_interval,
                settings.syncing_interval,
                settings.loadavg_interval,
            ) {
                Some(e) => r == Err::<Config, ConfigError>(e),
                None => r matches Ok(c) && c.wf() && c.uuid == uuid && c.api_token
                    == settings.api_token && c.api_url == settings.api_url && c.harvest_interval
                    == settings.harvest_interval && c.syncing_interval == settings.syncing_interval
                    && c.loadavg_interval == settings.loadavg_interval && c.cache_size
                    == settings.cache_size && c.sso_url == settings.sso_url,
            },
    {
        let harvest = settings.harvest_interval;
        let syncing = settings.syncing_interval;
        let loadavg = settings.loadavg_interval;
        if harvest == 0 {
            return Err(ConfigError::ZeroHarvestInterval);
        }
        if syncing == 0 {
            return Err(ConfigError::ZeroSyncingInterval);
        }
        if loadavg == 0 {
            return Err(ConfigError::ZeroLoadavgInterval);
        }
        if syncing > THRESHOLD_MAX / harvest || loadavg > THRESHOLD_MAX / harvest {
            proof {
                lemma_product_bound(harvest as int, syncing as int);
                lemma_product_bound(harvest as int, loadavg as int);
            }
            return Err(ConfigError::ThresholdOverflow);
        }
        proof {
            lemma_product_bound(harvest as int, syncing as int);
            lemma_product_bound(harvest as int, loadavg as int);
        }
        Ok(
            Config {
                uuid,
                api_token: settings.api_token,
                api_url: settings.api_url,
                harvest_interval: harvest,
                syncing_interval: syncing,
                loadavg_interval: loadavg,
                cache_size: settings.cache_size,
                sso_url: settings.sso_url,
            },
        )
    }
}

/// `b > M / a` exactly when `a * b > M`, for a positive `a`.
proof fn lemma_product_bound(a: int, b: int)
    requires
        a > 0,
        b >= 0,
    ensures
        (b > THRESHOLD_MAX as int / a) <==> (a * b > THRESHOLD_MAX as int),
{
    let m = THRESHOLD_MAX as int;
    let q = m / a;
    assert(m == a * q + m % a) by (nonlinear_arith)
        requires a > 0, q == m / a;
    assert(0 <= m % a < a) by (nonlinear_arith)
        requires a > 0;
    if b > q {
        assert(a * b >= a * q + a) by (nonlinear_arith)
            requires a > 0, b >= q + 1;
    } else {
        assert(a * b <= a * q) by (nonlinear_arith)
            requires a > 0, b <= q;
    }
}

/// Seconds between two samples when the file does not say.
pub fn default_harvest() -> (r: u64)
    ensures
        r == 1,
{
    1
}

/// Harvest ticks between two flushes when the file does not say.
pub fn default_syncing() -> (r: u64)
    ensures
        r == 1,
{
    1
}

/// Harvest ticks between two load-average refreshes when the file does not say.
pub fn default_loadavg() -> (r: u64)
    ensures
        r == 5,
{
    5
}

/// Smallest buffer length when the file does not say.
pub fn default_cache_size() -> (r: i64)
    ensures
        r == 16,
{
    16
}

} // verus!
