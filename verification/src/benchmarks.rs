//! What a benchmark is configured with, what it counts, and how a duration
//! is written.

use crate::config::{KeyType, TransportType};
use crate::text::{chars_of, parse_unsigned, read_unsigned, same_text};
use vstd::prelude::*;

verus! {

/// The configuration of a benchmark.
#[derive(Debug, Clone, Copy, PartialEq, Eq, Structural)]
pub struct BenchmarkConfig {
    pub target_rps: u32,
    pub duration_seconds: u64,
    pub num_connections: u32,
    pub num_threads: u32,
    pub key_type: KeyType,
    pub transport: TransportType,
}

impl BenchmarkConfig {
    pub open spec fn standard() -> BenchmarkConfig {
        BenchmarkConfig {
            target_rps: 1000,
            duration_seconds: 60,
            num_connections: 10,
            num_threads: 4,
            key_type: KeyType::EccP256,
            transport: TransportType::Tcp,
        }
    }
}

impl Default for BenchmarkConfig {
    fn default() -> (out: Self)
        ensures
            out == BenchmarkConfig::standard(),
    {
        BenchmarkConfig {
            target_rps: 1000,
            duration_seconds: 60,
            num_connections: 10,
            num_threads: 4,
            key_type: KeyType::EccP256,
            transport: TransportType::Tcp,
        }
    }
}

/// A benchmark with its configuration.
#[derive(Debug)]
pub struct BenchmarkRunner {
    config: BenchmarkConfig,
}

impl BenchmarkRunner {
    pub closed spec fn configured(&self) -> BenchmarkConfig {
        self.config
    }

    pub fn new(config: BenchmarkConfig) -> (out: Self)
        ensures
            out.configured() == config,
    {
        BenchmarkRunner { config }
    }

    pub fn config(&self) -> (config: BenchmarkConfig)
        ensures
            config == self.configured(),
    {
        self.config
    }
}

/// The counts of a benchmark. Latencies are microseconds. Without a
/// success the smallest latency is the largest number.
#[derive(Debug, Clone, Copy, PartialEq, Eq, Structural)]
pub struct BenchmarkMetrics {
    pub total_requests: u64,
    pub successful_requests: u64,
    pub failed_requests: u64,
    pub total_latency_micros: u64,
    pub min_latency_micros: u64,
    pub max_latency_micros: u64,
}

/// One more, wrapping round at the largest number.
pub open spec fn wrapping_sum(a: u64, b: u64) -> u64 {
    if a + b > u64::MAX {
        (a + b - u64::MAX - 1) as u64
    } else {
        (a + b) as u64
    }
}

impl BenchmarkMetrics {
    /// The counts before the first request.
    pub open spec fn start() -> BenchmarkMetrics {
        BenchmarkMetrics {
            total_requests: 0,
            successful_requests: 0,
            failed_requests: 0,
            total_latency_micros: 0,
            min_latency_micros: u64::MAX,
            max_latency_micros: 0,
        }
    }

    /// The counts after one more success with this latency.
    pub open spec fn with_success(self, latency_micros: u64) -> BenchmarkMetrics {
        BenchmarkMetrics {
            total_requests: wrapping_sum(self.total_requests, 1),
            successful_requests: wrapping_sum(self.successful_requests, 1),
            failed_requests: self.failed_requests,
            total_latency_micros: wrapping_sum(self.total_latency_micros, latency_micros),
            min_latency_micros: if latency_micros < self.min_latency_micros {
                latency_micros
            } else {
                self.min_latency_micros
            },
            max_latency_micros: if latency_micros > self.max_latency_micros {
                latency_micros
            } else {
                self.max_latency_micros
            },
        }
    }

    /// The counts after one more failure.
    pub open spec fn with_failure(self) -> BenchmarkMetrics {
        BenchmarkMetrics {
            total_requests: wrapping_sum(self.total_requests, 1),
            failed_requests: wrapping_sum(self.failed_requests, 1),
            ..self
        }
    }

    /// The mean latency of the successes, rounded down, and zero without a
    /// success.
    pub open spec fn mean_latency(self) -> u64 {
        if self.successful_requests > 0 {
            self.total_latency_micros / self.successful_requests
        } else {
            0
        }
    }

    pub fn new() -> (out: Self)
        ensures
            out == BenchmarkMetrics::start(),
    {
        BenchmarkMetrics {
            total_requests: 0,
            successful_requests: 0,
            failed_requests: 0,
            total_latency_micros: 0,
            min_latency_micros: u64::MAX,
            max_latency_micros: 0,
        }
    }

    pub fn record_success(&mut self, latency_micros: u64)
        ensures
            *final(self) == old(self).with_success(latency_micros),
    {
        self.total_requests = add_wrapping(self.total_requests, 1);
        self.successful_requests = add_wrapping(self.successful_requests, 1);
        self.total_latency_micros = add_wrapping(self.total_latency_micros, latency_micros);
        if latency_micros < self.min_latency_micros {
            self.min_latency_micros = latency_micros;
        }
        if latency_micros > self.max_latency_micros {
            self.max_latency_micros = latency_micros;
        }
    }

    pub fn record_failure(&mut self)
        ensures
            *final(self) == old(self).with_failure(),
    {
        self.total_requests = add_wrapping(self.total_requests, 1);
        self.failed_requests = add_wrapping(self.failed_requests, 1);
    }

    /// The mean latency of the successes in microseconds.
    pub fn mean_latency_micros(&self) -> (mean: u64)
        ensures
            mean == self.mean_latency(),
    {
        if self.successful_requests > 0 {
            self.total_latency_micros / self.successful_requests
        } else {
            0
        }
    }

    /// The smallest latency to report: zero without a success.
    pub fn reported_min_latency(&self) -> (min: u64)
        ensures
            min == if self.min_latency_micros == u64::MAX {
                0
            } else {
                self.min_latency_micros
            },
    {
        if self.min_latency_micros == u64::MAX {
            0
        } else {
            self.min_latency_micros
        }
    }
}

fn add_wrapping(a: u64, b: u64) -> (sum: u64)
    ensures
        sum == wrapping_sum(a, b),
{
    if a > u64::MAX - b {
        a - (u64::MAX - b) - 1
    } else {
        a + b
    }
}

/// Whether `c` is white space that is cut off the ends of a text.
pub open spec fn is_space(c: char) -> bool {
    let n = c as u32;
    (0x09 <= n <= 0x0d) || n == 0x20 || n == 0x85 || n == 0xa0 || n == 0x1680 || (0x2000 <= n
        <= 0x200a) || n == 0x2028 || n == 0x2029 || n == 0x202f || n == 0x205f || n == 0x3000
}

/// The index of the first character of `s` that is no white space, or the
/// length of `s`.
pub open spec fn trim_start(s: Seq<char>, from: int) -> int
    decreases s.len() - from,
{
    if 0 <= from < s.len() && is_space(s[from]) {
        trim_start(s, from + 1)
    } else {
        from
    }
}

/// The index after the last character of `s` at or after `floor` that is no
/// white space.
pub open spec fn trim_end(s: Seq<char>, floor: int, to: int) -> int
    decreases to - floor,
{
    if floor < to <= s.len() && is_space(s[to - 1]) {
        trim_end(s, floor, to - 1)
    } else {
        to
    }
}

/// The text without the white space at its ends.
pub open spec fn trimmed(s: Seq<char>) -> Seq<char> {
    let from = trim_start(s, 0);
    s.subrange(from, trim_end(s, from, s.len() as int))
}

/// The number of seconds that a text of a duration stands for: a number
/// followed by `s` for seconds, `m` for minutes or `h` for hours, or a bare
/// number of seconds, with white space at the ends cut off. A text that is
/// no such number, and a duration beyond the largest number, stand for
/// nothing.
pub open spec fn duration_seconds(s: Seq<char>) -> Option<u64> {
    let text = trimmed(s);
    let body = text.subrange(0, text.len() - 1);
    let (number, unit): (Option<nat>, nat) = if text.len() > 0 && text.last() == 's' {
        (parse_unsigned(body, u64::MAX as nat), 1)
    } else if text.len() > 0 && text.last() == 'm' {
        (parse_unsigned(body, u64::MAX as nat), 60)
    } else if text.len() > 0 && text.last() == 'h' {
        (parse_unsigned(body, u64::MAX as nat), 3600)
    } else {
        (parse_unsigned(text, u64::MAX as nat), 1)
    };
    match number {
        Some(n) => if n * unit <= u64::MAX {
            Some((n * unit) as u64)
        } else {
            None
        },
        None => None,
    }
}

fn space(c: char) -> (yes: bool)
    ensures
        yes == is_space(c),
{
    let n = c as u32;
    (0x09 <= n && n <= 0x0d) || n == 0x20 || n == 0x85 || n == 0xa0 || n == 0x1680 || (0x2000 <= n
        && n <= 0x200a) || n == 0x2028 || n == 0x2029 || n == 0x202f || n == 0x205f || n
        == 0x3000
}

/// Reads a duration in seconds.
pub fn parse_duration(duration_str: &str) -> (seconds: Option<u64>)
    ensures
        seconds == duration_seconds(duration_str@),
{
    let chars = chars_of(duration_str);
    let mut from: usize = 0;
    while from < chars.len() && space(chars[from])
        invariant
            from <= chars@.len(),
            trim_start(chars@, 0) == trim_start(chars@, from as int),
        decreases chars@.len() - from,
    {
        from = from + 1;
    }
    let mut to: usize = chars.len();
    while from < to && space(chars[to - 1])
        invariant
            from <= to <= chars@.len(),
            trim_end(chars@, from as int, chars@.len() as int) == trim_end(
                chars@,
                from as int,
                to as int,
            ),
        decreases to - from,
    {
        to = to - 1;
    }
    let ghost text = chars@.subrange(from as int, to as int);
    proof {
        assert(text == trimmed(chars@));
    }
    let (number, unit): (Option<u64>, u64) = if from < to && chars[to - 1] == 's' {
        proof {
            assert(text.last() == chars@[to - 1]);
            assert(text.subrange(0, text.len() - 1) =~= chars@.subrange(from as int, to - 1));
        }
        (read_unsigned(&chars, from, to - 1, u64::MAX), 1)
    } else if from < to && chars[to - 1] == 'm' {
        proof {
            assert(text.last() == chars@[to - 1]);
            assert(text.subrange(0, text.len() - 1) =~= chars@.subrange(from as int, to - 1));
        }
        (read_unsigned(&chars, from, to - 1, u64::MAX), 60)
    } else if from < to && chars[to - 1] == 'h' {
        proof {
            assert(text.last() == chars@[to - 1]);
            assert(text.subrange(0, text.len() - 1) =~= chars@.subrange(from as int, to - 1));
        }
        (read_unsigned(&chars, from, to - 1, u64::MAX), 3600)
    } else {
        proof {
            if from < to {
                assert(text.last() == chars@[to - 1]);
            }
        }
        (read_unsigned(&chars, from, to, u64::MAX), 1)
    };
    match number {
        Some(n) => n.checked_mul(unit),
        None => None,
    }
}

/// The channel of a pool that serves the request with number `request_id`:
/// the channels take turns.
pub fn channel_index(request_id: u64, pool_size: usize) -> (index: usize)
    requires
        pool_size > 0,
    ensures
        index == request_id as int % pool_size as int,
        index < pool_size,
{
    (request_id % (pool_size as u64)) as usize
}

/// The time in nanoseconds between two requests at `rate` requests per
/// second, rounded down.
pub fn rate_interval_nanos(rate: u64) -> (nanos: u64)
    requires
        rate > 0,
    ensures
        nanos == 1_000_000_000int / rate as int,
{
    1_000_000_000 / rate
}

/// What a benchmark calls.
#[derive(Debug, Clone, Copy, PartialEq, Eq, Structural)]
pub enum ServiceType {
    Echo,
    RsaSign,
    EccSign,
}

/// Which services a benchmark is asked to call.
#[derive(Debug, Clone, Copy, PartialEq, Eq, Structural)]
pub enum ServiceChoice {
    Echo,
    RsaSign,
    EccSign,
    All,
}

impl ServiceType {
    /// The name of the service in reports.
    pub open spec fn display_name(self) -> Seq<char> {
        match self {
            ServiceType::Echo => "Echo"@,
            ServiceType::RsaSign => "RSA Sign"@,
            ServiceType::EccSign => "ECC Sign"@,
        }
    }

    pub fn as_str(&self) -> (name: &'static str)
        ensures
            name@ == self.display_name(),
    {
        match self {
            ServiceType::Echo => "Echo",
            ServiceType::RsaSign => "RSA Sign",
            ServiceType::EccSign => "ECC Sign",
        }
    }
}

impl ServiceChoice {
    /// The name of the choice on the command line.
    pub open spec fn name(self) -> Seq<char> {
        match self {
            ServiceChoice::Echo => "echo"@,
            ServiceChoice::RsaSign => "rsa_sign"@,
            ServiceChoice::EccSign => "ecc_sign"@,
            ServiceChoice::All => "all"@,
        }
    }

    /// The choice that a name stands for, if it stands for one.
    pub open spec fn of_name(name: Seq<char>) -> Option<Self> {
        if name == "echo"@ {
            Some(ServiceChoice::Echo)
        } else if name == "rsa_sign"@ {
            Some(ServiceChoice::RsaSign)
        } else if name == "ecc_sign"@ {
            Some(ServiceChoice::EccSign)
        } else if name == "all"@ {
            Some(ServiceChoice::All)
        } else {
            None
        }
    }

    /// The services of the choice, in the order in which they are called.
    pub open spec fn services(self) -> Seq<ServiceType> {
        match self {
            ServiceChoice::Echo => seq![ServiceType::Echo],
            ServiceChoice::RsaSign => seq![ServiceType::RsaSign],
            ServiceChoice::EccSign => seq![ServiceType::EccSign],
            ServiceChoice::All => seq![
                ServiceType::Echo,
                ServiceType::RsaSign,
                ServiceType::EccSign,
            ],
        }
    }

    pub fn as_str(&self) -> (name: &'static str)
        ensures
            name@ == self.name(),
    {
        match self {
            ServiceChoice::Echo => "echo",
            ServiceChoice::RsaSign => "rsa_sign",
            ServiceChoice::EccSign => "ecc_sign",
            ServiceChoice::All => "all",
        }
    }

    pub fn from_name(name: &str) -> (choice: Option<Self>)
        ensures
            choice == Self::of_name(name@),
    {
        if same_text(name, "echo") {
            Some(ServiceChoice::Echo)
        } else if same_text(name, "rsa_sign") {
            Some(ServiceChoice::RsaSign)
        } else if same_text(name, "ecc_sign") {
            Some(ServiceChoice::EccSign)
        } else if same_text(name, "all") {
            Some(ServiceChoice::All)
        } else {
            None
        }
    }

    pub fn services_to_benchmark(&self) -> (services: Vec<ServiceType>)
        ensures
            services@ == self.services(),
    {
        let mut services: Vec<ServiceType> = Vec::new();
        match self {
            ServiceChoice::Echo => {
                services.push(ServiceType::Echo);
            },
            ServiceChoice::RsaSign => {
                services.push(ServiceType::RsaSign);
            },
            ServiceChoice::EccSign => {
                services.push(ServiceType::EccSign);
            },
            ServiceChoice::All => {
                services.push(ServiceType::Echo);
                services.push(ServiceType::RsaSign);
                services.push(ServiceType::EccSign);
            },
        }
        proof {
            assert(services@ =~= self.services());
        }
        services
    }

    /// Every choice is the choice of its name.
    pub proof fn lemma_name_round_trip(self)
        ensures
            Self::of_name(self.name()) == Some(self),
    {
        reveal_strlit("echo");
        reveal_strlit("rsa_sign");
        reveal_strlit("ecc_sign");
        reveal_strlit("all");
        assert("echo"@.len() != "rsa_sign"@.len());
        assert("echo"@.len() != "all"@.len());
        assert("rsa_sign"@[0] != "ecc_sign"@[0]);
        assert("rsa_sign"@.len() != "all"@.len());
        assert("ecc_sign"@.len() != "all"@.len());
    }
}

/// What a benchmark run is set to: how many connections and threads, how
/// many requests or for how many seconds, at which rate, against which
/// services.
#[derive(Debug, Clone, Copy, PartialEq, Eq, Structural)]
pub struct BenchmarkSettings {
    pub connections: usize,
    pub threads: usize,
    pub requests: usize,
    pub rate_limit: Option<u64>,
    pub service: ServiceChoice,
    pub duration: Option<u64>,
}

/// Why settings are refused.
#[derive(Debug, Clone, Copy, PartialEq, Eq, Structural)]
pub enum SettingsFault {
    NoConnections,
    NoThreads,
    NoRequests,
    NoRate,
}

impl SettingsFault {
    /// The message of the fault.
    pub open spec fn text(self) -> Seq<char> {
        match self {
            SettingsFault::NoConnections => "Number of connections must be greater than 0"@,
            SettingsFault::NoThreads => "Number of threads must be greater than 0"@,
            SettingsFault::NoRequests =>
                "For count-based benchmarks, requests must be greater than 0. Use --duration for time-based benchmarks."@,
            SettingsFault::NoRate => "Requests per second must be greater than 0"@,
        }
    }

    pub fn message(&self) -> (out: &'static str)
        ensures
            out@ == self.text(),
    {
        match self {
            SettingsFault::NoConnections => "Number of connections must be greater than 0",
            SettingsFault::NoThreads => "Number of threads must be greater than 0",
            SettingsFault::NoRequests =>
                "For count-based benchmarks, requests must be greater than 0. Use --duration for time-based benchmarks.",
            SettingsFault::NoRate => "Requests per second must be greater than 0",
        }
    }
}

/// The value that is set: the one of the command line before the one of the
/// environment, and the default where neither is given.
pub fn settled<T>(command_line: Option<T>, environment: Option<T>, default: T) -> (value: T)
    ensures
        value == match command_line {
            Some(given) => given,
            None => match environment {
                Some(given) => given,
                None => default,
            },
        },
{
    match command_line {
        Some(given) => given,
        None => match environment {
            Some(given) => given,
            None => default,
        },
    }
}

impl BenchmarkSettings {
    /// The settings where nothing is given: ten connections, four threads, a
    /// thousand requests, no rate limit, the echo service, no duration.
    pub open spec fn standard() -> BenchmarkSettings {
        BenchmarkSettings {
            connections: 10,
            threads: 4,
            requests: 1000,
            rate_limit: None,
            service: ServiceChoice::Echo,
            duration: None,
        }
    }

    /// The first rule that the settings break: there are connections, there
    /// are threads, a run without a duration has requests, and a rate limit
    /// is not zero.
    pub open spec fn fault(self) -> Option<SettingsFault> {
        if self.connections == 0 {
            Some(SettingsFault::NoConnections)
        } else if self.threads == 0 {
            Some(SettingsFault::NoThreads)
        } else if self.duration is None && self.requests == 0 {
            Some(SettingsFault::NoRequests)
        } else if self.rate_limit == Some(0u64) {
            Some(SettingsFault::NoRate)
        } else {
            None
        }
    }

    pub fn standard_settings() -> (out: Self)
        ensures
            out == BenchmarkSettings::standard(),
            out.fault() is None,
    {
        BenchmarkSettings {
            connections: 10,
            threads: 4,
            requests: 1000,
            rate_limit: None,
            service: ServiceChoice::Echo,
            duration: None,
        }
    }

    /// Checks the settings.
    pub fn validate(&self) -> (checked: Result<(), SettingsFault>)
        ensures
            checked == match self.fault() {
                Some(fault) => Err::<(), SettingsFault>(fault),
                None => Ok(()),
            },
    {
        if self.connections == 0 {
            Err(SettingsFault::NoConnections)
        } else if self.threads == 0 {
            Err(SettingsFault::NoThreads)
        } else if self.duration.is_none() && self.requests == 0 {
            Err(SettingsFault::NoRequests)
        } else {
            match self.rate_limit {
                Some(rate) => if rate == 0 {
                    Err(SettingsFault::NoRate)
                } else {
                    Ok(())
                },
                None => Ok(()),
            }
        }
    }
}

} // verus!
