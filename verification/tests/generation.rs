use stabilitypool::clock::PrimitiveDateTime;
use stabilitypool::config::{EmptyGenParams, PoolGenParams, PoolGenParamsConsensus};
use stabilitypool::generator::{PoolConfigGenerator, DEFAULT_GLOBAL_MAX_FEERATE};
use stabilitypool::module::{ApiVersion, CoreConsensusVersion, ModuleConsensusVersion};
use stabilitypool::oracle::{OracleClient, OracleConfig};
use stabilitypool::server::StabilityPool;

fn params(start_epoch_at: Option<PrimitiveDateTime>) -> PoolGenParams<(u8, u8)> {
    PoolGenParams {
        local: EmptyGenParams,
        consensus: PoolGenParamsConsensus {
            important_param: 3,
            start_epoch_at,
            epoch_length: 40,
            oracle_config: OracleConfig::Mock("http://localhost:1234".to_string()),
            collateral_ratio: (2, 1),
        },
    }
}

fn new_year(year: i32) -> Option<PrimitiveDateTime> {
    Some(PrimitiveDateTime { year, ordinal: 1, hour: 0, minute: 0, second: 0 })
}

#[test]
fn dealer_gives_every_guardian_the_same() {
    let configs = PoolConfigGenerator.trusted_dealer_gen(&[0, 1, 2, 3, 1], &params(new_year(2019)), 3);
    assert_eq!(configs.keys().copied().collect::<Vec<u16>>(), vec![0, 1, 2, 3]);
    for config in configs.values() {
        let epoch = &config.consensus.epoch;
        assert_eq!(epoch.start_epoch_at, 1_546_300_800);
        assert_eq!(epoch.epoch_length, 40);
        assert_eq!(epoch.price_threshold, 3);
        assert_eq!(epoch.max_feerate_ppm, 100_000);
        assert_eq!(epoch.max_feerate_ppm, DEFAULT_GLOBAL_MAX_FEERATE);
        assert_eq!(epoch.collateral_ratio, (2, 1));
        assert_eq!(config.consensus.oracle, OracleConfig::Mock("http://localhost:1234".to_string()));
    }
}

#[test]
fn dealer_without_a_start_starts_now() {
    let before = time::OffsetDateTime::now_utc().unix_timestamp() as u64;
    let configs = PoolConfigGenerator.trusted_dealer_gen(&[4, 9], &params(None), 2);
    let after = time::OffsetDateTime::now_utc().unix_timestamp() as u64;
    let start = configs[&4].consensus.epoch.start_epoch_at;
    assert!(before <= start && start <= after);
    assert_eq!(configs[&9].consensus.epoch.start_epoch_at, start);
}

#[test]
fn dealer_with_no_guardians() {
    assert!(PoolConfigGenerator.trusted_dealer_gen(&[], &params(new_year(2019)), 0).is_empty());
}

#[test]
fn guardian_makes_what_a_dealer_would_give() {
    let own = PoolConfigGenerator.distributed_gen(&params(new_year(1969)), 3, 17);
    let dealt = PoolConfigGenerator.trusted_dealer_gen(&[5], &params(new_year(1969)), 3);
    assert_eq!(own.consensus.epoch, dealt[&5].consensus.epoch);
    assert_eq!(own.consensus.oracle, dealt[&5].consensus.oracle);
    assert_eq!(own.consensus.epoch.start_epoch_at, (-31_536_000i64) as u64);
    assert_eq!(own.consensus.epoch.start_epoch_at().unix_nanos, -31_536_000_000_000_000);
}

#[test]
fn guardians_with_a_told_start_agree() {
    let one = PoolConfigGenerator.distributed_gen(&params(new_year(2019)), 3, 17);
    let other = PoolConfigGenerator.distributed_gen(&params(new_year(2019)), 3, 18);
    assert_eq!(one.consensus.epoch.start_epoch_at, 1_546_300_800);
    assert_eq!(one.consensus.epoch, other.consensus.epoch);
    assert_eq!(one.consensus.oracle, other.consensus.oracle);
}

#[test]
fn guardians_without_a_told_start_agree_on_one() {
    let one = PoolConfigGenerator.distributed_gen(&params(None), 3, 1_546_300_801);
    let other = PoolConfigGenerator.distributed_gen(&params(None), 3, 1_546_300_801);
    assert_eq!(one.consensus.epoch.start_epoch_at, 1_546_300_801);
    assert_eq!(one.consensus.epoch, other.consensus.epoch);
    assert_eq!(one.consensus.oracle, other.consensus.oracle);
    let before_1970 = PoolConfigGenerator.distributed_gen(&params(None), 3, -1);
    assert_eq!(before_1970.consensus.epoch.start_epoch_at, u64::MAX);
}

#[test]
fn start_that_a_guardian_brings() {
    assert_eq!(PoolConfigGenerator.start_second(&params(new_year(2019))), 1_546_300_800);
    let before = time::OffsetDateTime::now_utc().unix_timestamp();
    let start = PoolConfigGenerator.start_second(&params(None));
    let after = time::OffsetDateTime::now_utc().unix_timestamp();
    assert!(before <= start && start <= after);
}

#[test]
fn configurations_can_be_cloned() {
    let params = params(new_year(2019));
    let config = PoolConfigGenerator.distributed_gen(&params.clone(), 3, 17);
    let copy = config.clone();
    assert_eq!(copy.consensus.epoch, config.consensus.epoch);
    assert_eq!(copy.consensus.oracle, config.consensus.oracle);
    let client = PoolConfigGenerator.get_client_config(copy.consensus);
    assert_eq!(client.clone(), client);
}

#[test]
fn generation_for_a_given_second() {
    let config = PoolConfigGenerator.generate_at(&params(None), 4, -1);
    assert_eq!(config.consensus.epoch.start_epoch_at, u64::MAX);
    let configs = PoolConfigGenerator.trusted_dealer_gen_at(&[1], &params(None), 4, 17);
    assert_eq!(configs[&1].consensus.epoch.start_epoch_at, 17);
    assert_eq!(configs[&1].consensus.epoch.price_threshold, 4);
}

#[test]
fn clients_get_source_and_ratio() {
    let config = PoolConfigGenerator.distributed_gen(&params(new_year(2019)), 3, 17);
    let client = PoolConfigGenerator.get_client_config(config.consensus);
    assert_eq!(client.oracle, OracleConfig::Mock("http://localhost:1234".to_string()));
    assert_eq!(client.collateral_ratio, (2, 1));
}

#[test]
fn versions_of_the_module() {
    assert_eq!(PoolConfigGenerator.versions(CoreConsensusVersion(1)), vec![ModuleConsensusVersion(0)]);
    let supported = PoolConfigGenerator.supported_api_versions();
    assert_eq!(supported.core_consensus, CoreConsensusVersion(1));
    assert_eq!(supported.module_consensus, ModuleConsensusVersion(0));
    assert_eq!(supported.api, vec![ApiVersion { major: 0, minor: 0 }]);
}

#[test]
fn price_sources() {
    assert_eq!(OracleConfig::BitMex.oracle_client(), OracleClient::BitMex);
    assert_eq!(
        OracleConfig::File("some/file".to_string()).oracle_client(),
        OracleClient::File { path: "some/file".to_string() }
    );
    assert_eq!(
        OracleConfig::Mock("http://LOCALHOST:80/price".to_string()).oracle_client(),
        OracleClient::Mock { url: "http://localhost/price".to_string() }
    );
    assert_eq!(
        OracleConfig::default().oracle_client(),
        OracleClient::File { path: "./misc/offline_oracle".to_string() }
    );
}

#[test]
fn price_source_with_a_bad_url() {
    let bad = OracleConfig::Mock("no url".to_string());
    assert!(!bad.can_make_client());
    assert_eq!(bad.try_oracle_client(), None);
    assert_eq!(bad.oracle_client_with(None), None);
    assert_eq!(
        bad.oracle_client_with(Some("http://x/".to_string())),
        Some(OracleClient::Mock { url: "http://x/".to_string() })
    );
    assert_eq!(OracleConfig::BitMex.oracle_client_with(None), Some(OracleClient::BitMex));
    assert_eq!(bad.clone(), bad);
}

#[test]
fn pool_from_its_configuration() {
    let config = PoolConfigGenerator.distributed_gen(&params(new_year(2019)), 3, 17);
    let pool: StabilityPool<(u8, u8), u32, Vec<u8>> = StabilityPool::new(config);
    assert_eq!(pool.oracle(), &OracleClient::Mock { url: "http://localhost:1234/".to_string() });
    assert_eq!(pool.epoch_config().price_threshold, 3);
    assert_eq!(pool.backoff, 0);
    assert!(pool.proposed_db.is_empty());
}

#[test]
fn pool_with_a_bad_url_is_refused() {
    let mut config = PoolConfigGenerator.distributed_gen(&params(new_year(2019)), 3, 17);
    config.consensus.oracle = OracleConfig::Mock("::".to_string());
    let refused: Result<StabilityPool<(u8, u8), u32, u32>, _> = StabilityPool::try_new(config);
    let mut config = refused.unwrap_err();
    config.consensus.oracle = OracleConfig::BitMex;
    let pool: StabilityPool<(u8, u8), u32, u32> = StabilityPool::try_new(config).unwrap();
    assert_eq!(pool.oracle, OracleClient::BitMex);
}
