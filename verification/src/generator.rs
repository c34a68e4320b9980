//! How the configuration of a pool comes about, and what of it clients get.

use crate::clock::{is_unix_timestamp, lemma_utc_seconds_in_range, now_utc_timestamp};
use crate::config::{
    bits, bits_of, epoch_id_at, law_epoch_spans_its_length, law_epoch_zero_is_before_the_start,
    law_next_epoch_after_its_length, signed_of, EpochConfig, PoolClientConfig, PoolConfig, PoolConfigConsensus,
    PoolConfigLocal, PoolConfigPrivate, PoolGenParams, PoolGenParamsConsensus,
};
use crate::module::{
    ApiVersion, CoreConsensusVersion, ModuleConsensusVersion, PeerId, SupportedModuleApiVersions,
};
use std::collections::BTreeMap;
use vstd::prelude::*;

verus! {

broadcast use vstd::std_specs::btree::group_btree_axioms;

/// The default global max feerate, in parts per million.
pub const DEFAULT_GLOBAL_MAX_FEERATE: u64 = 100_000;

/// Makes the configuration of a pool.
#[derive(Debug, Clone, Copy, PartialEq, Eq, Structural, Hash)]
pub struct PoolConfigGenerator;

/// The configuration of a pool on every guardian, where a price counts once `threshold`
/// guardians agree on it and the first epoch starts at the second `start`.
pub open spec fn generated_config<Ratio>(
    params: PoolGenParamsConsensus<Ratio>,
    threshold: usize,
    start: i64,
) -> PoolConfig<Ratio> {
    PoolConfig {
        local: PoolConfigLocal,
        private: PoolConfigPrivate,
        consensus: PoolConfigConsensus {
            epoch: EpochConfig {
                start_epoch_at: bits_of(start),
                epoch_length: params.epoch_length,
                price_threshold: (threshold as int % 0x1_0000_0000) as u32,
                max_feerate_ppm: DEFAULT_GLOBAL_MAX_FEERATE,
                collateral_ratio: params.collateral_ratio,
            },
            oracle: params.oracle_config,
        },
    }
}

/// The configurations that a dealer hands out: one for each of `peers`.
pub open spec fn dealt_configs<Ratio>(
    peers: Seq<PeerId>,
    params: PoolGenParamsConsensus<Ratio>,
    threshold: usize,
    start: i64,
) -> Map<PeerId, PoolConfig<Ratio>> {
    Map::new(
        |peer: PeerId| peers.contains(peer),
        |peer: PeerId| generated_config(params, threshold, start),
    )
}

/// The second `start` is the one that `params` name as the start of the first epoch; if
/// they name none, any one will do.
pub open spec fn is_start_for<Ratio>(params: PoolGenParamsConsensus<Ratio>, start: i64) -> bool {
    &&& is_unix_timestamp(start as int)
    &&& params.start_epoch_at matches Some(datetime) ==> start == datetime.utc_seconds()
}

/// The second at which the first epoch starts: the one that `params` name or, if they name
/// none, the one that the guardians agreed on.
pub open spec fn start_for<Ratio>(params: PoolGenParamsConsensus<Ratio>, agreed: i64) -> int {
    match params.start_epoch_at {
        Some(datetime) => datetime.utc_seconds(),
        None => agreed as int,
    }
}

/// The configuration that a guardian makes for itself.
pub open spec fn own_config<Ratio>(
    params: PoolGenParamsConsensus<Ratio>,
    threshold: usize,
    agreed: i64,
) -> PoolConfig<Ratio> {
    generated_config(params, threshold, start_for(params, agreed) as i64)
}

/// The API versions that a guardian serves for a pool.
pub open spec fn server_api_versions() -> Seq<ApiVersion> {
    seq![ApiVersion { major: 0, minor: 0 }]
}

/// The last 32 bits of a count.
fn low_bits(count: usize) -> (low: u32)
    ensures
        low == count as int % 0x1_0000_0000,
{
    let wide: u64 = count as u64;
    let low: u32 = wide as u32;
    assert(low == wide % 0x1_0000_0000) by (bit_vector)
        requires
            low == wide as u32,
    ;
    low
}

impl PoolConfigGenerator {
    /// The consensus versions that the module can run with.
    pub fn versions(&self, _core: CoreConsensusVersion) -> (versions: Vec<ModuleConsensusVersion>)
        ensures
            versions@ == seq![ModuleConsensusVersion(0)],
    {
        vec![ModuleConsensusVersion(0)]
    }

    /// The API versions that the module serves.
    pub fn supported_api_versions(&self) -> (supported: SupportedModuleApiVersions)
        ensures
            supported.core_consensus == CoreConsensusVersion(1),
            supported.module_consensus == ModuleConsensusVersion(0),
            supported.api@ == server_api_versions(),
    {
        SupportedModuleApiVersions {
            core_consensus: CoreConsensusVersion(1),
            module_consensus: ModuleConsensusVersion(0),
            api: vec![ApiVersion { major: 0, minor: 0 }],
        }
    }

    /// The configuration for one guardian, where the first epoch starts at the second
    /// `start`.
    pub fn generate_at<Ratio: Copy>(
        &self,
        params: &PoolGenParams<Ratio>,
        threshold: usize,
        start: i64,
    ) -> (config: PoolConfig<Ratio>)
        ensures
            config == generated_config(params.consensus, threshold, start),
    {
        PoolConfig {
            local: PoolConfigLocal,
            private: PoolConfigPrivate,
            consensus: PoolConfigConsensus {
                epoch: EpochConfig {
                    start_epoch_at: bits(start),
                    epoch_length: params.consensus.epoch_length,
                    price_threshold: low_bits(threshold),
                    max_feerate_ppm: DEFAULT_GLOBAL_MAX_FEERATE,
                    collateral_ratio: params.consensus.collateral_ratio,
                },
                oracle: params.consensus.oracle_config.clone(),
            },
        }
    }

    /// The second at which the first epoch starts: the one that is told, or else now. Which
    /// second it is now is up to the machine's clock.
    ///
    /// Where no start is told, this is what a guardian brings when the guardians agree on one.
    pub fn start_second<Ratio>(&self, params: &PoolGenParams<Ratio>) -> (start: i64)
        requires
            params.consensus.wf(),
        ensures
            is_start_for(params.consensus, start),
    {
        match params.consensus.start_epoch_at {
            Some(datetime) => datetime.assume_utc_timestamp(),
            None => now_utc_timestamp(),
        }
    }

    /// The configurations that a dealer hands out, where the first epoch starts at the
    /// second `start`.
    pub fn trusted_dealer_gen_at<Ratio: Copy>(
        &self,
        peers: &[PeerId],
        params: &PoolGenParams<Ratio>,
        threshold: usize,
        start: i64,
    ) -> (configs: BTreeMap<PeerId, PoolConfig<Ratio>>)
        ensures
            configs@ == dealt_configs(peers@, params.consensus, threshold, start),
    {
        let mut configs: BTreeMap<PeerId, PoolConfig<Ratio>> = BTreeMap::new();
        let mut i: usize = 0;
        assert(configs@ =~= dealt_configs(peers@.take(0), params.consensus, threshold, start));
        while i < peers.len()
            invariant
                i <= peers@.len(),
                configs@ == dealt_configs(
                    peers@.take(i as int),
                    params.consensus,
                    threshold,
                    start,
                ),
            decreases peers@.len() - i,
        {
            configs.insert(peers[i], self.generate_at(params, threshold, start));
            proof {
                let before = peers@.take(i as int);
                let after = peers@.take(i + 1);
                assert(after =~= before.push(peers@[i as int]));
                assert forall|peer: PeerId|
                    after.contains(peer) <==> before.contains(peer) || peer == peers@[i as int] by {
                    assert(after[i as int] == peers@[i as int]);
                    if before.contains(peer) {
                        let j = choose|j: int| 0 <= j < before.len() && before[j] == peer;
                        assert(after[j] == peer);
                    }
                }
                assert(configs@ =~= dealt_configs(after, params.consensus, threshold, start));
            }
            i = i + 1;
        }
        assert(peers@.take(i as int) =~= peers@);
        configs
    }

    /// The configurations that a dealer hands out, one for each guardian. Where the start
    /// of the first epoch is not told, the clock is read once, so that all guardians get
    /// the same start.
    pub fn trusted_dealer_gen<Ratio: Copy>(
        &self,
        peers: &[PeerId],
        params: &PoolGenParams<Ratio>,
        threshold: usize,
    ) -> (configs: BTreeMap<PeerId, PoolConfig<Ratio>>)
        requires
            params.consensus.wf(),
        ensures
            exists|start: i64| #[trigger]
                is_start_for(params.consensus, start) && configs@ == dealt_configs(
                    peers@,
                    params.consensus,
                    threshold,
                    start,
                ),
    {
        let start: i64 = self.start_second(params);
        self.trusted_dealer_gen_at(peers, params, threshold, start)
    }

    /// The configuration that a guardian makes for itself. Where the start of the first
    /// epoch is not told, it is the second `agreed`. The guardians agree on it beforehand:
    /// their configurations have to be the same, which their clocks need not be.
    pub fn distributed_gen<Ratio: Copy>(
        &self,
        params: &PoolGenParams<Ratio>,
        threshold: usize,
        agreed: i64,
    ) -> (config: PoolConfig<Ratio>)
        requires
            params.consensus.wf(),
        ensures
            config == own_config(params.consensus, threshold, agreed),
    {
        let start: i64 = match params.consensus.start_epoch_at {
            Some(datetime) => datetime.assume_utc_timestamp(),
            None => agreed,
        };
        self.generate_at(params, threshold, start)
    }

    /// The part of the configuration that clients get.
    pub fn get_client_config<Ratio>(
        &self,
        config: PoolConfigConsensus<Ratio>,
    ) -> (client: PoolClientConfig<Ratio>)
        ensures
            client == client_config(config),
            client.oracle == config.oracle,
            client.collateral_ratio == config.epoch.collateral_ratio,
    {
        PoolClientConfig {
            oracle: config.oracle,
            collateral_ratio: config.epoch.collateral_ratio,
        }
    }
}

/// The part of a configuration that clients get.
pub open spec fn client_config<Ratio>(config: PoolConfigConsensus<Ratio>) -> PoolClientConfig<
    Ratio,
> {
    PoolClientConfig { oracle: config.oracle, collateral_ratio: config.epoch.collateral_ratio }
}

/// A dealer gives every guardian the same consensus configuration, and leaves none out.
pub proof fn law_dealt_configs_agree<Ratio>(
    peers: Seq<PeerId>,
    params: PoolGenParamsConsensus<Ratio>,
    threshold: usize,
    start: i64,
    one: PeerId,
    other: PeerId,
)
    requires
        peers.contains(one),
        peers.contains(other),
    ensures
        ({
            let configs = dealt_configs(peers, params, threshold, start);
            &&& configs.contains_key(one)
            &&& configs.contains_key(other)
            &&& configs[one].consensus == configs[other].consensus
        }),
{
}

/// A guardian that makes its configuration itself ends up with what a dealer would have
/// given it, if the start of the first epoch is told or the guardians agreed on the one that
/// the dealer takes.
pub proof fn law_distributed_agrees_with_dealt<Ratio>(
    peers: Seq<PeerId>,
    params: PoolGenParamsConsensus<Ratio>,
    threshold: usize,
    dealt_start: i64,
    agreed: i64,
    peer: PeerId,
)
    requires
        peers.contains(peer),
        params.start_epoch_at is Some || agreed == dealt_start,
        is_start_for(params, dealt_start),
    ensures
        dealt_configs(peers, params, threshold, dealt_start)[peer] == own_config(
            params,
            threshold,
            agreed,
        ),
{
}

/// Guardians that make their configurations themselves, from the same parameters and with
/// the same threshold, end up with the same configuration, whether or not the start of the
/// first epoch is told: if it is told, whatever they agreed on, and if it is not, with the
/// start that they agreed on.
pub proof fn law_guardians_agree<Ratio>(
    params: PoolGenParamsConsensus<Ratio>,
    threshold: usize,
    one_agreed: i64,
    other_agreed: i64,
)
    requires
        params.start_epoch_at is None ==> one_agreed == other_agreed,
    ensures
        own_config(params, threshold, one_agreed).consensus == own_config(
            params,
            threshold,
            other_agreed,
        ).consensus,
        own_config(params, threshold, one_agreed) == own_config(params, threshold, other_agreed),
{
}

/// The start that guardians agreed on is the start of the first epoch in the configurations
/// that they make, unless another is told.
pub proof fn law_own_config_keeps_the_start<Ratio>(
    params: PoolGenParamsConsensus<Ratio>,
    threshold: usize,
    agreed: i64,
)
    requires
        params.wf(),
        is_unix_timestamp(agreed as int),
    ensures
        own_config(params, threshold, agreed).consensus.epoch.has_start(),
        own_config(params, threshold, agreed).consensus.epoch.start_second() == start_for(
            params,
            agreed,
        ),
{
    if let Some(datetime) = params.start_epoch_at {
        lemma_utc_seconds_in_range(datetime);
    }
    law_generated_config_keeps_the_start(params, threshold, start_for(params, agreed) as i64);
}

/// A generated configuration starts its first epoch at the second that it was generated
/// for, also before 1970.
pub proof fn law_generated_config_keeps_the_start<Ratio>(
    params: PoolGenParamsConsensus<Ratio>,
    threshold: usize,
    start: i64,
)
    requires
        is_start_for(params, start),
    ensures
        generated_config(params, threshold, start).consensus.epoch.has_start(),
        generated_config(params, threshold, start).consensus.epoch.start_second() == start,
{
    assert(signed_of(bits_of(start)) == start);
}

/// Clients get the price source and the ratio that the pool was generated from.
pub proof fn law_client_config_is_what_was_asked_for<Ratio>(
    params: PoolGenParamsConsensus<Ratio>,
    threshold: usize,
    start: i64,
)
    ensures
        client_config(generated_config(params, threshold, start).consensus) == (PoolClientConfig {
            oracle: params.oracle_config,
            collateral_ratio: params.collateral_ratio,
        }),
{
}

/// A generated configuration takes every value from what it was generated from: the epochs'
/// length, the price source and the ratio from the parameters, the threshold as far as it
/// fits into 32 bits, and the start. The largest fee rate is a tenth.
pub proof fn law_generated_config_holds_what_was_asked_for<Ratio>(
    params: PoolGenParamsConsensus<Ratio>,
    threshold: usize,
    start: i64,
)
    ensures
        ({
            let consensus = generated_config(params, threshold, start).consensus;
            &&& consensus.epoch.epoch_length == params.epoch_length
            &&& threshold <= u32::MAX ==> consensus.epoch.price_threshold == threshold
            &&& (threshold - consensus.epoch.price_threshold) % 0x1_0000_0000 == 0
            &&& consensus.epoch.max_feerate_ppm == 100_000
            &&& consensus.epoch.max_feerate_ppm == DEFAULT_GLOBAL_MAX_FEERATE
            &&& consensus.epoch.collateral_ratio == params.collateral_ratio
            &&& consensus.oracle == params.oracle_config
            &&& start >= 0 ==> consensus.epoch.start_epoch_at == start
            &&& start < 0 ==> consensus.epoch.start_epoch_at == start + 0x1_0000_0000_0000_0000
        }),
{
}

/// Two generated configurations differ in the epochs' length exactly if their parameters do,
/// and likewise in the price source, in the ratio, in the start and, for thresholds of up to
/// 32 bits, in the threshold.
pub proof fn law_generated_configs_differ_as_asked<Ratio>(
    one: PoolGenParamsConsensus<Ratio>,
    other: PoolGenParamsConsensus<Ratio>,
    one_threshold: usize,
    other_threshold: usize,
    one_start: i64,
    other_start: i64,
)
    requires
        one_threshold <= u32::MAX,
        other_threshold <= u32::MAX,
    ensures
        ({
            let a = generated_config(one, one_threshold, one_start).consensus;
            let b = generated_config(other, other_threshold, other_start).consensus;
            &&& a.epoch.epoch_length - b.epoch.epoch_length == one.epoch_length - other.epoch_length
            &&& a.epoch.price_threshold - b.epoch.price_threshold == one_threshold - other_threshold
            &&& a.epoch.start_second() - b.epoch.start_second() == one_start - other_start
            &&& a.epoch.collateral_ratio == b.epoch.collateral_ratio <==> one.collateral_ratio
                == other.collateral_ratio
            &&& a.oracle == b.oracle <==> one.oracle_config == other.oracle_config
        }),
{
    assert(signed_of(bits_of(one_start)) == one_start);
    assert(signed_of(bits_of(other_start)) == other_start);
}

/// Under a generated configuration the first epoch starts at the start, and from then on the
/// number of the epoch goes up by one every `epoch_length` seconds of the parameters.
pub proof fn law_generated_config_runs_its_epochs<Ratio>(
    params: PoolGenParamsConsensus<Ratio>,
    threshold: usize,
    start: i64,
    unix_nanos: int,
)
    requires
        params.epoch_length > 0,
        unix_nanos >= start * 1_000_000_000,
    ensures
        ({
            let epoch = generated_config(params, threshold, start).consensus.epoch;
            let id = |nanos: int|
                epoch_id_at(epoch.start_second(), epoch.epoch_length as int, nanos);
            &&& id(start * 1_000_000_000 - 1) == 0
            &&& id(start * 1_000_000_000) == 1
            &&& id(unix_nanos + params.epoch_length * 1_000_000_000) == id(unix_nanos) + 1
        }),
{
    let epoch = generated_config(params, threshold, start).consensus.epoch;
    let length = params.epoch_length as int;
    assert(signed_of(bits_of(start)) == start);
    assert(epoch.start_second() == start && epoch.epoch_length == length);
    law_next_epoch_after_its_length(start as int, length, unix_nanos);
    law_epoch_zero_is_before_the_start(start as int, length, start * 1_000_000_000 - 1);
    law_epoch_spans_its_length(start as int, length, start * 1_000_000_000, 1);
}

/// A dealer hands out a configuration to each of the peers and to nobody else, and in each of
/// them are the epochs' length, the price source, the ratio and the start that were asked for,
/// and the threshold.
pub proof fn law_dealt_configs_hold_what_was_asked_for<Ratio>(
    peers: Seq<PeerId>,
    params: PoolGenParamsConsensus<Ratio>,
    threshold: usize,
    start: i64,
    peer: PeerId,
)
    ensures
        ({
            let configs = dealt_configs(peers, params, threshold, start);
            &&& configs.contains_key(peer) <==> exists|i: int|
                0 <= i < peers.len() && peers[i] == peer
            &&& configs.contains_key(peer) ==> {
                let consensus = configs[peer].consensus;
                &&& consensus.epoch.epoch_length == params.epoch_length
                &&& threshold <= u32::MAX ==> consensus.epoch.price_threshold == threshold
                &&& consensus.epoch.max_feerate_ppm == 100_000
                &&& consensus.epoch.collateral_ratio == params.collateral_ratio
                &&& consensus.oracle == params.oracle_config
                &&& consensus.epoch.start_second() == start
            }
        }),
{
    assert(signed_of(bits_of(start)) == start);
}

/// The configuration that a guardian makes for itself holds what was asked for: the epochs'
/// length, the price source, the ratio, the threshold, and as its start the one that is told
/// or else the one that was agreed on.
pub proof fn law_own_config_holds_what_was_asked_for<Ratio>(
    params: PoolGenParamsConsensus<Ratio>,
    threshold: usize,
    agreed: i64,
)
    requires
        params.wf(),
    ensures
        ({
            let consensus = own_config(params, threshold, agreed).consensus;
            &&& consensus.epoch.epoch_length == params.epoch_length
            &&& threshold <= u32::MAX ==> consensus.epoch.price_threshold == threshold
            &&& consensus.epoch.max_feerate_ppm == 100_000
            &&& consensus.epoch.collateral_ratio == params.collateral_ratio
            &&& consensus.oracle == params.oracle_config
            &&& match params.start_epoch_at {
                Some(datetime) => consensus.epoch.start_second() == datetime.utc_seconds(),
                None => consensus.epoch.start_second() == agreed,
            }
        }),
{
    if let Some(datetime) = params.start_epoch_at {
        lemma_utc_seconds_in_range(datetime);
        let start = datetime.utc_seconds() as i64;
        assert(signed_of(bits_of(start)) == start);
    } else {
        assert(signed_of(bits_of(agreed)) == agreed);
    }
}

/// A start that is told is the only one that will do; where none is told, every second of the
/// years -9999 to 9999 will.
pub proof fn law_told_start_is_kept<Ratio>(params: PoolGenParamsConsensus<Ratio>, start: i64)
    requires
        params.wf(),
    ensures
        params.start_epoch_at matches Some(datetime) ==> (is_start_for(params, start) <==> start
            == datetime.utc_seconds()),
        params.start_epoch_at is None ==> (is_start_for(params, start) <==> -377_705_116_800
            <= start <= 253_402_300_799),
{
    if let Some(datetime) = params.start_epoch_at {
        lemma_utc_seconds_in_range(datetime);
    }
}

/// Clients get the price source and the ratio of the configuration, as they are there.
pub proof fn law_client_config_is_taken_over<Ratio>(config: PoolConfigConsensus<Ratio>)
    ensures
        client_config(config).oracle == config.oracle,
        client_config(config).collateral_ratio == config.epoch.collateral_ratio,
{
}

/// A guardian serves API version 0.0 and no other.
pub proof fn law_server_serves_one_version()
    ensures
        server_api_versions().len() == 1,
        server_api_versions()[0].major == 0,
        server_api_versions()[0].minor == 0,
{
}

} // verus!
