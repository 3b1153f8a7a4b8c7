//! The configuration of a run and the rules it has to meet.

use vstd::prelude::*;
use vstd::string::*;

verus! {

/// The configuration of a run.
#[derive(Debug, Clone, PartialEq, Eq)]
pub struct Settings {
    pub database_url: String,
    pub create_database: bool,
    pub run_migrations: bool,
    pub sourcify_url: String,
    pub eth_bytecode_db_url: String,
    pub eth_bytecode_db_api_key: Option<String>,
    pub limit_requests_per_second: u32,
    pub n_threads: usize,
    /// The chains to extract from.
    pub chains: Vec<u64>,
}

/// Why a configuration is refused.
#[derive(Debug, Clone, Copy, PartialEq, Eq, Structural)]
pub enum SettingsError {
    /// No chain is configured.
    EmptyChains,
    /// The request rate is zero, or its double does not fit the limiter.
    BadRequestRate,
}

/// The pace of the requests to the registry: a steady rate and the burst
/// that may exceed it.
#[derive(Debug, Clone, Copy, PartialEq, Eq, Structural)]
pub struct RateLimit {
    pub per_second: u32,
    pub burst: u32,
}

/// How often a request that failed transiently is sent again.
pub const MAX_RETRIES: u32 = 3;

/// The rate that a pace may have: positive, and small enough to be doubled.
pub open spec fn rate_in_range(per_second: u32) -> bool {
    0 < per_second && 2 * per_second <= u32::MAX
}

impl Settings {
    /// A configuration is valid exactly if it names at least one chain.
    pub fn validate(&self) -> (r: Result<(), SettingsError>)
        ensures
            r is Ok <==> self.chains@.len() > 0,
            r is Err ==> r == Err::<(), SettingsError>(SettingsError::EmptyChains),
    {
        if self.chains.len() == 0 {
            return Err(SettingsError::EmptyChains);
        }
        Ok(())
    }

    /// The pace that the configured rate asks for: the rate itself, with a
    /// burst of twice the rate. A rate that is zero or cannot be doubled is
    /// refused.
    pub fn rate_limit(&self) -> (r: Result<RateLimit, SettingsError>)
        ensures
            rate_in_range(self.limit_requests_per_second) ==> r == Ok::<RateLimit, SettingsError>(
                (RateLimit {
                    per_second: self.limit_requests_per_second,
                    burst: (2 * self.limit_requests_per_second) as u32,
                }),
            ),
            !rate_in_range(self.limit_requests_per_second) ==> r == Err::<RateLimit, SettingsError>(
                SettingsError::BadRequestRate,
            ),
    {
        let rate: u32 = self.limit_requests_per_second;
        if rate == 0 || rate > u32::MAX / 2 {
            return Err(SettingsError::BadRequestRate);
        }
        Ok(RateLimit { per_second: rate, burst: rate * 2 })
    }
}

/// The registry that is asked where the configuration names none.
pub fn default_sourcify_url() -> (r: String)
    ensures
        r@ == "https://sourcify.dev/server"@,
{
    String::from_str("https://sourcify.dev/server")
}

/// The request rate where the configuration names none.
pub fn default_limit_requests_per_second() -> (r: u32)
    ensures
        r == 10,
        rate_in_range(r),
{
    10
}

/// The number of runtime threads where the configuration names none.
pub fn default_n_threads() -> (r: usize)
    ensures
        r == 4,
{
    4
}

} // verus!
