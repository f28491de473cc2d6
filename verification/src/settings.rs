//! Home Assistant connection settings and the reconnect backoff arithmetic.
//!
//! The backoff factor is carried in tenths (`20` means a factor of 2.0),
//! matching the one-decimal precision of the expert-options form.

use vstd::prelude::*;

verus! {

/// Upstream heartbeat configuration, in seconds.
#[derive(Clone, Debug)]
pub struct HeartbeatSettings {
    pub interval: u64,
    pub timeout: u64,
}

/// Reconnect policy configuration.
#[derive(Clone, Debug)]
pub struct ReconnectSettings {
    /// Maximum number of retries before giving up.
    pub attempts: u16,
    /// Initial delay in milliseconds.
    pub duration_ms: u64,
    /// Cap on the delay in milliseconds.
    pub duration_max_ms: u64,
    /// Backoff factor in tenths; at least 10 (factor 1.0).
    pub backoff_factor_tenths: u64,
}

/// The persisted Home Assistant connection settings.
#[derive(Clone, Debug)]
pub struct HomeAssistantSettings {
    /// WebSocket URL, `ws` or `wss` after normalization.
    pub url: String,
    /// Long-lived access token.
    pub token: String,
    /// Connection timeout in seconds.
    pub connection_timeout: u32,
    /// Maximum WebSocket frame size in kilobytes.
    pub max_frame_size_kb: u32,
    pub heartbeat: HeartbeatSettings,
    pub reconnect: ReconnectSettings,
}

impl HomeAssistantSettings {
    /// The lower bounds that the setup dialog enforces on every field it
    /// ever writes.
    pub open spec fn valid(self) -> bool {
        &&& self.connection_timeout >= 3
        &&& self.max_frame_size_kb >= 1024
        &&& self.heartbeat.interval >= 3
        &&& self.heartbeat.timeout >= 6
        &&& self.reconnect.backoff_factor_tenths >= 10
    }
}

impl HomeAssistantSettings {
    /// A field-by-field copy; unlike a derived clone it carries a contract.
    pub fn duplicate(&self) -> (r: HomeAssistantSettings)
        ensures
            r == *self,
    {
        HomeAssistantSettings {
            url: self.url.clone(),
            token: self.token.clone(),
            connection_timeout: self.connection_timeout,
            max_frame_size_kb: self.max_frame_size_kb,
            heartbeat: HeartbeatSettings {
                interval: self.heartbeat.interval,
                timeout: self.heartbeat.timeout,
            },
            reconnect: ReconnectSettings {
                attempts: self.reconnect.attempts,
                duration_ms: self.reconnect.duration_ms,
                duration_max_ms: self.reconnect.duration_max_ms,
                backoff_factor_tenths: self.reconnect.backoff_factor_tenths,
            },
        }
    }
}

impl Default for HomeAssistantSettings {
    /// Settings used until the driver setup writes real ones.
    fn default() -> (s: HomeAssistantSettings)
        ensures
            s.valid(),
            s.url@ =~= Seq::<char>::empty(),
            s.token@ =~= Seq::<char>::empty(),
            s.connection_timeout == 5,
            s.max_frame_size_kb == 5120,
            s.heartbeat.interval == 5,
            s.heartbeat.timeout == 40,
            s.reconnect.attempts == 5,
            s.reconnect.duration_ms == 1000,
            s.reconnect.duration_max_ms == 30000,
            s.reconnect.backoff_factor_tenths == 15,
    {
        HomeAssistantSettings {
            url: String::new(),
            token: String::new(),
            connection_timeout: 5,
            max_frame_size_kb: 5120,
            heartbeat: HeartbeatSettings { interval: 5, timeout: 40 },
            reconnect: ReconnectSettings {
                attempts: 5,
                duration_ms: 1000,
                duration_max_ms: 30000,
                backoff_factor_tenths: 15,
            },
        }
    }
}

pub open spec fn min_int(a: int, b: int) -> int {
    if a <= b {
        a
    } else {
        b
    }
}

/// The delay after one more failure: the current delay times the backoff
/// factor, capped at the maximum.
pub open spec fn next_backoff(d: int, tenths: int, dmax: int) -> int {
    min_int(d * tenths / 10, dmax)
}

/// The delay reached after `k` consecutive failures.
pub open spec fn backoff_iter(d0: int, tenths: int, dmax: int, k: nat) -> int
    decreases k,
{
    if k == 0 {
        d0
    } else {
        next_backoff(backoff_iter(d0, tenths, dmax, (k - 1) as nat), tenths, dmax)
    }
}

pub open spec fn pow_int(b: int, k: nat) -> int
    decreases k,
{
    if k == 0 {
        1
    } else {
        b * pow_int(b, (k - 1) as nat)
    }
}

/// Compute the next reconnect delay.  Exact: the factor is applied in
/// 128-bit arithmetic, so no intermediate overflow occurs.
pub fn compute_next_backoff(d: u64, tenths: u64, dmax: u64) -> (r: u64)
    ensures
        r == next_backoff(d as int, tenths as int, dmax as int),
{
    proof {
        assert((d as nat) * (tenths as nat) <= (u64::MAX as nat) * (u64::MAX as nat))
            by (nonlinear_arith)
            requires
                d as nat <= u64::MAX as nat,
                tenths as nat <= u64::MAX as nat,
        ;
    }
    let scaled_wide: u128 = (d as u128) * (tenths as u128) / 10;
    if scaled_wide > dmax as u128 {
        dmax
    } else {
        scaled_wide as u64
    }
}

proof fn lemma_mul_div_ten(d: int, g: int)
    requires
        d >= 0,
        g >= 0,
    ensures
        d * (10 * g) / 10 == d * g,
{
    assert(d * (10 * g) == 10 * (d * g)) by (nonlinear_arith);
    assert(10 * (d * g) / 10 == d * g) by (nonlinear_arith)
        requires
            d * g >= 0,
    ;
}

proof fn lemma_min_step(a: int, m: int, g: int)
    requires
        g >= 1,
        a >= 0,
        m >= 0,
    ensures
        min_int(min_int(a, m) * g, m) == min_int(a * g, m),
{
    if a <= m {
    } else {
        assert(m * g >= m) by (nonlinear_arith)
            requires
                g >= 1,
                m >= 0,
        ;
        assert(a * g >= a) by (nonlinear_arith)
            requires
                g >= 1,
                a >= 0,
        ;
    }
}

proof fn lemma_pow_pos(g: int, k: nat)
    requires
        g >= 1,
    ensures
        pow_int(g, k) >= 1,
    decreases k,
{
    if k > 0 {
        lemma_pow_pos(g, (k - 1) as nat);
        assert(g * pow_int(g, (k - 1) as nat) >= 1) by (nonlinear_arith)
            requires
                g >= 1,
                pow_int(g, (k - 1) as nat) >= 1,
        ;
    }
}

/// The delay after `k` consecutive failures is the initial delay times the
/// `k`-th power of the factor, capped at the maximum — for whole-number
/// backoff factors, where each step's scaling is exact.
pub proof fn lemma_backoff_closed_form(d0: int, tenths: int, dmax: int, k: nat)
    requires
        tenths % 10 == 0,
        tenths >= 10,
        0 <= d0 <= dmax,
    ensures
        backoff_iter(d0, tenths, dmax, k) == min_int(d0 * pow_int(tenths / 10, k), dmax),
    decreases k,
{
    let g = tenths / 10;
    assert(tenths == 10 * g);
    if k == 0 {
        assert(pow_int(g, 0) == 1);
    } else {
        lemma_backoff_closed_form(d0, tenths, dmax, (k - 1) as nat);
        let prev = backoff_iter(d0, tenths, dmax, (k - 1) as nat);
        let a = d0 * pow_int(g, (k - 1) as nat);
        assert(prev == min_int(a, dmax));
        lemma_pow_pos(g, (k - 1) as nat);
        assert(d0 * pow_int(g, (k - 1) as nat) >= 0) by (nonlinear_arith)
            requires
                d0 >= 0,
                pow_int(g, (k - 1) as nat) >= 1,
        ;
        assert(prev >= 0);
        lemma_mul_div_ten(prev, g);
        assert(backoff_iter(d0, tenths, dmax, k) == min_int(prev * g, dmax));
        lemma_min_step(a, dmax, g);
        assert(min_int(min_int(a, dmax) * g, dmax) == min_int(a * g, dmax));
        assert(a * g == d0 * pow_int(g, k)) by (nonlinear_arith)
            requires
                a == d0 * pow_int(g, (k - 1) as nat),
                pow_int(g, k) == g * pow_int(g, (k - 1) as nat),
        ;
    }
}

} // verus!
