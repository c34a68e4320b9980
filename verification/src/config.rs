//! The configuration of a pool: what it is generated from, what the guardians agree on,
//! and what clients get to see.
//!
//! `Ratio` is the type that tells how much a provider puts up against a seeker's
//! position. The configuration carries a ratio, and never looks into it.

use crate::clock::{from_unix_timestamp, OffsetDateTime, PrimitiveDateTime, NANOS_PER_SECOND};
use crate::oracle::OracleConfig;
use vstd::prelude::*;

verus! {

broadcast use vstd::string::group_string_axioms;

/// The default epoch length is 24hrs (represented in seconds).
pub const DEFAULT_EPOCH_LENGTH: u64 = 86_400;

#[derive(Debug, Clone, PartialEq, Eq, Hash)]
pub struct EpochConfig<Ratio> {
    /// The Unix timestamp at which the first epoch starts. One before 1970 is held as its
    /// two's complement.
    pub start_epoch_at: u64,
    /// In seconds.
    pub epoch_length: u64,
    /// Number of peers that have to agree on price before it's used
    pub price_threshold: u32,
    /// The maximum a provider can charge per epoch in parts per million of
    /// locked principal
    pub max_feerate_ppm: u64,
    /// The ratio of seeker position to provider collateral
    pub collateral_ratio: Ratio,
}

/// The signed number whose 64-bit two's complement is `bits`.
pub open spec fn signed_of(bits: u64) -> int {
    if bits < 0x8000_0000_0000_0000 {
        bits as int
    } else {
        bits - 0x1_0000_0000_0000_0000
    }
}

/// The 64-bit two's complement of `n`.
pub open spec fn bits_of(n: i64) -> u64 {
    if n >= 0 {
        n as u64
    } else {
        (n + 0x1_0000_0000_0000_0000) as u64
    }
}

/// The number of the epoch at a moment, where the first epoch starts at the second
/// `start` and each lasts `length` seconds. Before the first epoch it is 0.
pub open spec fn epoch_id_at(start: int, length: int, unix_nanos: int) -> int {
    let since_start = unix_nanos - start * NANOS_PER_SECOND;
    if since_start < 0 {
        0
    } else {
        since_start / (NANOS_PER_SECOND as int) / length + 1
    }
}

impl<Ratio> EpochConfig<Ratio> {
    /// The Unix timestamp at which the first epoch starts.
    pub open spec fn start_second(self) -> int {
        signed_of(self.start_epoch_at)
    }

    /// The first epoch starts in the years -9999 to 9999.
    pub open spec fn has_start(self) -> bool {
        crate::clock::is_unix_timestamp(self.start_second())
    }

    /// The number of the epoch that `time` falls into: 0 before the first epoch starts,
    /// and from then on 1, 2, 3, ...
    pub fn epoch_id_for_time(&self, time: OffsetDateTime) -> (id: u64)
        requires
            self.has_start(),
            time.wf(),
            self.epoch_length > 0 || time.unix_nanos < self.start_second() * NANOS_PER_SECOND,
        ensures
            id == epoch_id_at(
                self.start_second(),
                self.epoch_length as int,
                time.unix_nanos as int,
            ),
    {
        let start = self.start_epoch_at();
        if time.unix_nanos < start.unix_nanos {
            0
        } else {
            let since_start: i128 = time.unix_nanos - start.unix_nanos;
            let whole_seconds: u64 = (since_start / NANOS_PER_SECOND) as u64;
            whole_seconds / self.epoch_length + 1
        }
    }

    /// The moment at which the first epoch starts.
    pub fn start_epoch_at(&self) -> (start: OffsetDateTime)
        requires
            self.has_start(),
        ensures
            start.wf(),
            start.at_second(self.start_second()),
    {
        let seconds: i64 = signed(self.start_epoch_at);
        from_unix_timestamp(seconds).unwrap()
    }
}

/// Reads a two's complement.
fn signed(bits: u64) -> (n: i64)
    ensures
        n == signed_of(bits),
{
    let n: i64 = bits as i64;
    assert(bits < 0x8000_0000_0000_0000 ==> n == bits) by (bit_vector)
        requires
            n == bits as i64,
    ;
    assert(bits >= 0x8000_0000_0000_0000 ==> n == bits - 0x1_0000_0000_0000_0000) by (bit_vector)
        requires
            n == bits as i64,
    ;
    n
}

/// Writes a two's complement.
pub(crate) fn bits(n: i64) -> (b: u64)
    ensures
        b == bits_of(n),
{
    let b: u64 = n as u64;
    assert(n >= 0 ==> b == n) by (bit_vector)
        requires
            b == n as u64,
    ;
    assert(n < 0 ==> b == n + 0x1_0000_0000_0000_0000) by (bit_vector)
        requires
            b == n as u64,
    ;
    b
}

/// Says nothing: a pool needs no parameter that differs between guardians.
#[derive(Debug, Clone, Copy, PartialEq, Eq, Structural, Hash)]
pub struct EmptyGenParams;

/// What the configuration of a pool is generated from.
#[derive(Debug, Clone)]
pub struct PoolGenParams<Ratio> {
    pub local: EmptyGenParams,
    pub consensus: PoolGenParamsConsensus<Ratio>,
}

#[derive(Debug, Clone)]
pub struct PoolGenParamsConsensus<Ratio> {
    pub important_param: u64,
    /// When the first epoch starts, in UTC. If it is not told, the first epoch starts at
    /// once.
    pub start_epoch_at: Option<PrimitiveDateTime>,
    /// this is in seconds
    pub epoch_length: u64,
    pub oracle_config: OracleConfig,
    /// The ratio of seeker position to provider collateral
    pub collateral_ratio: Ratio,
}

impl<Ratio> PoolGenParamsConsensus<Ratio> {
    /// The start of the first epoch, where it is told, is a date and time of day.
    pub open spec fn wf(self) -> bool {
        self.start_epoch_at matches Some(datetime) ==> datetime.wf()
    }
}

impl<Ratio: Default> Default for PoolGenParamsConsensus<Ratio> {
    fn default() -> (params: Self)
        ensures
            params.important_param == 3,
            params.start_epoch_at is None,
            params.epoch_length == DEFAULT_EPOCH_LENGTH,
            params.epoch_length == 24 * 60 * 60,
            params.oracle_config matches OracleConfig::File(path) && path@
                == "./misc/offline_oracle"@,
            call_ensures(Ratio::default, (), params.collateral_ratio),
    {
        Self {
            important_param: 3,
            start_epoch_at: None,
            epoch_length: DEFAULT_EPOCH_LENGTH,
            oracle_config: OracleConfig::default(),
            collateral_ratio: Ratio::default(),
        }
    }
}

/// The configuration of a pool on one guardian.
#[derive(Debug, Clone)]
pub struct PoolConfig<Ratio> {
    pub local: PoolConfigLocal,
    /// Configuration that will be encrypted.
    pub private: PoolConfigPrivate,
    /// Configuration that needs to be the same for every federation member.
    pub consensus: PoolConfigConsensus<Ratio>,
}

#[derive(Debug, Clone, Copy, PartialEq, Eq, Structural, Hash)]
pub struct PoolConfigLocal;

#[derive(Debug, Clone)]
pub struct PoolConfigConsensus<Ratio> {
    pub epoch: EpochConfig<Ratio>,
    pub oracle: OracleConfig,
}

#[derive(Debug, Clone, Copy, PartialEq, Eq, Structural, Hash)]
pub struct PoolConfigPrivate;

/// The part of a pool's configuration that clients get.
#[derive(Debug, Clone, PartialEq, Eq, Hash)]
pub struct PoolClientConfig<Ratio> {
    pub oracle: OracleConfig,
    pub collateral_ratio: Ratio,
}

impl<Ratio> PoolClientConfig<Ratio> {
    /// The text that shows a client configuration whose JSON form is `json`.
    pub fn shown(json: &str) -> (text: String)
        ensures
            text@ == "PoolClientConfig "@ + json@,
    {
        "PoolClientConfig ".to_string().concat(json)
    }
}

/// Epoch `k`, for `k` from 1, lasts from `length * (k - 1)` seconds after the start, that
/// second included, to `length * k` seconds after it, that second left out.
pub proof fn law_epoch_spans_its_length(start: int, length: int, unix_nanos: int, k: int)
    requires
        length > 0,
        k >= 1,
    ensures
        epoch_id_at(start, length, unix_nanos) == k <==> (start + length * (k - 1))
            * NANOS_PER_SECOND <= unix_nanos < (start + length * k) * NANOS_PER_SECOND,
{
    let since_start = unix_nanos - start * NANOS_PER_SECOND;
    let seconds = since_start / (NANOS_PER_SECOND as int);
    assert(length * (k - 1) == length * k - length) by (nonlinear_arith);
    assert(length * (k - 1) >= 0) by (nonlinear_arith)
        requires
            length > 0,
            k >= 1,
    ;
    if since_start >= 0 {
        lemma_quotient_is(seconds, length, k - 1);
    }
}

/// `n / d` is `q` exactly when `n` lies in the `q`-th stretch of length `d`.
proof fn lemma_quotient_is(n: int, d: int, q: int)
    requires
        d > 0,
    ensures
        n / d == q <==> d * q <= n < d * q + d,
{
    vstd::arithmetic::div_mod::lemma_fundamental_div_mod(n, d);
    if d * q <= n < d * q + d {
        vstd::arithmetic::div_mod::lemma_fundamental_div_mod_converse(n, d, q, n - d * q);
    }
}

/// Epoch 0 is the time before the first epoch starts.
pub proof fn law_epoch_zero_is_before_the_start(start: int, length: int, unix_nanos: int)
    requires
        length > 0,
    ensures
        epoch_id_at(start, length, unix_nanos) == 0 <==> unix_nanos < start * NANOS_PER_SECOND,
        epoch_id_at(start, length, unix_nanos) >= 0,
{
    let since_start = unix_nanos - start * NANOS_PER_SECOND;
    if since_start >= 0 {
        vstd::arithmetic::div_mod::lemma_div_pos_is_pos(
            since_start / (NANOS_PER_SECOND as int),
            length,
        );
    }
}

/// The number of the epoch never falls as time goes on.
pub proof fn law_epochs_are_in_order(start: int, length: int, earlier: int, later: int)
    requires
        length > 0,
        earlier <= later,
    ensures
        epoch_id_at(start, length, earlier) <= epoch_id_at(start, length, later),
{
    law_epoch_zero_is_before_the_start(start, length, later);
    if earlier >= start * NANOS_PER_SECOND {
        vstd::arithmetic::div_mod::lemma_div_is_ordered(
            (earlier - start * NANOS_PER_SECOND) / (NANOS_PER_SECOND as int),
            (later - start * NANOS_PER_SECOND) / (NANOS_PER_SECOND as int),
            length,
        );
    }
}

/// Once the first epoch has started, the next one comes `length` seconds later.
pub proof fn law_next_epoch_after_its_length(start: int, length: int, unix_nanos: int)
    requires
        length > 0,
        unix_nanos >= start * NANOS_PER_SECOND,
    ensures
        epoch_id_at(start, length, unix_nanos + length * NANOS_PER_SECOND) == epoch_id_at(
            start,
            length,
            unix_nanos,
        ) + 1,
{
    let id = epoch_id_at(start, length, unix_nanos);
    law_epoch_zero_is_before_the_start(start, length, unix_nanos);
    law_epoch_spans_its_length(start, length, unix_nanos, id);
    law_epoch_spans_its_length(start, length, unix_nanos + length * NANOS_PER_SECOND, id + 1);
    assert(length * id == length * (id - 1) + length) by (nonlinear_arith);
    assert(length * (id + 1) == length * id + length) by (nonlinear_arith);
}

/// A start that is written as a two's complement reads back as it was.
pub proof fn law_start_reads_back(seconds: i64)
    ensures
        signed_of(bits_of(seconds)) == seconds,
{
}

/// A two's complement stands for the one number of 64 bits with a sign that differs from it
/// by nothing or by the 64th power of two.
pub proof fn law_twos_complement(bits: u64, n: i64)
    ensures
        i64::MIN <= signed_of(bits) <= i64::MAX,
        signed_of(bits) == bits || signed_of(bits) == bits - 0x1_0000_0000_0000_0000,
        bits_of(n) == n || bits_of(n) == n + 0x1_0000_0000_0000_0000,
        signed_of(bits) == n <==> bits_of(n) == bits,
{
}

/// The first epoch starts at the Unix timestamp that the configuration holds, which for one
/// above the largest `i64` is the negative number of the same bits. It is one that a clock
/// can tell within the years -9999 to 9999.
pub proof fn law_start_is_the_configured_second<Ratio>(
    epoch: EpochConfig<Ratio>,
    start: OffsetDateTime,
)
    ensures
        ({
            let second = if epoch.start_epoch_at <= i64::MAX {
                epoch.start_epoch_at as int
            } else {
                epoch.start_epoch_at - 0x1_0000_0000_0000_0000
            };
            &&& epoch.start_second() == second
            &&& epoch.has_start() <==> -377_705_116_800 <= second <= 253_402_300_799
            &&& start.at_second(epoch.start_second()) <==> start.unix_nanos == second
                * 1_000_000_000
        }),
{
}

/// The number of the epoch at a moment counts the lengths of an epoch that have begun since
/// the start: in epoch `k`, at least `k - 1` whole lengths have passed, and fewer than `k`.
pub proof fn law_epoch_counts_lengths<Ratio>(epoch: EpochConfig<Ratio>, unix_nanos: int)
    requires
        epoch.epoch_length > 0,
    ensures
        ({
            let start = if epoch.start_epoch_at <= i64::MAX {
                epoch.start_epoch_at as int
            } else {
                epoch.start_epoch_at - 0x1_0000_0000_0000_0000
            };
            let k = epoch_id_at(epoch.start_second(), epoch.epoch_length as int, unix_nanos);
            &&& unix_nanos < start * 1_000_000_000 <==> k == 0
            &&& k >= 0
            &&& k >= 1 ==> (start + epoch.epoch_length * (k - 1)) * 1_000_000_000 <= unix_nanos < (
            start + epoch.epoch_length * k) * 1_000_000_000
        }),
{
    let start = epoch.start_second();
    let length = epoch.epoch_length as int;
    law_epoch_zero_is_before_the_start(start, length, unix_nanos);
    let k = epoch_id_at(start, length, unix_nanos);
    if k >= 1 {
        law_epoch_spans_its_length(start, length, unix_nanos, k);
    }
}

/// Parameters that tell no start are in order, and those that tell one are in order exactly
/// if it is a date and time of day.
pub proof fn law_parameters_in_order<Ratio>(params: PoolGenParamsConsensus<Ratio>)
    ensures
        params.start_epoch_at is None ==> params.wf(),
        params.start_epoch_at matches Some(datetime) ==> params.wf() == datetime.wf(),
{
}

} // verus!
