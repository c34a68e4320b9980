use stabilitypool::clock::{OffsetDateTime, PrimitiveDateTime, MAX_UNIX_TIMESTAMP, MIN_UNIX_TIMESTAMP};
use stabilitypool::config::{EpochConfig, PoolClientConfig, PoolGenParamsConsensus};
use stabilitypool::oracle::OracleConfig;

const SECOND: i128 = 1_000_000_000;

fn epochs(start_epoch_at: u64, epoch_length: u64) -> EpochConfig<u8> {
    EpochConfig {
        start_epoch_at,
        epoch_length,
        price_threshold: 3,
        max_feerate_ppm: 100_000,
        collateral_ratio: 7,
    }
}

fn at(unix_nanos: i128) -> OffsetDateTime {
    OffsetDateTime { unix_nanos }
}

#[test]
fn epoch_zero_before_the_start() {
    let config = epochs(1_000, 40);
    assert_eq!(config.epoch_id_for_time(at(0)), 0);
    assert_eq!(config.epoch_id_for_time(at(1_000 * SECOND - 1)), 0);
    assert_eq!(config.epoch_id_for_time(at(1_000 * SECOND)), 1);
}

#[test]
fn epochs_last_for_their_length() {
    let config = epochs(1_000, 40);
    assert_eq!(config.epoch_id_for_time(at(1_040 * SECOND - 1)), 1);
    assert_eq!(config.epoch_id_for_time(at(1_040 * SECOND)), 2);
    assert_eq!(config.epoch_id_for_time(at(1_079 * SECOND + 999_999_999)), 2);
    assert_eq!(config.epoch_id_for_time(at(1_080 * SECOND)), 3);
    assert_eq!(config.epoch_id_for_time(at(5_000 * SECOND)), 101);
}

#[test]
fn epoch_length_zero_is_no_matter_before_the_start() {
    assert_eq!(epochs(1_000, 0).epoch_id_for_time(at(999 * SECOND)), 0);
}

#[test]
fn start_before_1970() {
    let config = epochs((-100i64) as u64, 40);
    assert_eq!(config.start_epoch_at(), at(-100 * SECOND));
    assert_eq!(config.epoch_id_for_time(at(-101 * SECOND)), 0);
    assert_eq!(config.epoch_id_for_time(at(-100 * SECOND)), 1);
    assert_eq!(config.epoch_id_for_time(at(0)), 3);
}

#[test]
fn start_at_the_ends_of_the_calendar() {
    let first = epochs(MIN_UNIX_TIMESTAMP as u64, 1);
    assert_eq!(first.start_epoch_at(), at(-377_705_116_800 * SECOND));
    let last = epochs(MAX_UNIX_TIMESTAMP as u64, 1);
    assert_eq!(last.start_epoch_at(), at(253_402_300_799 * SECOND));
    let moment = at(last.start_epoch_at().unix_nanos);
    assert_eq!(first.epoch_id_for_time(moment), 631_107_417_600);
    assert!(time::OffsetDateTime::from_unix_timestamp(MAX_UNIX_TIMESTAMP).is_ok());
    assert!(time::OffsetDateTime::from_unix_timestamp(MAX_UNIX_TIMESTAMP + 1).is_err());
    assert!(time::OffsetDateTime::from_unix_timestamp(MIN_UNIX_TIMESTAMP).is_ok());
    assert!(time::OffsetDateTime::from_unix_timestamp(MIN_UNIX_TIMESTAMP - 1).is_err());
}

#[test]
fn epochs_agree_with_date_time_arithmetic() {
    let start = time::OffsetDateTime::from_unix_timestamp(1_688_000_000).unwrap();
    let config = epochs(1_688_000_000, 86_400);
    for nanos in [0i64, 1, 999_999_999, 86_399_999_999_999, 86_400_000_000_000, 950_400_000_000_001] {
        let moment = start + time::Duration::nanoseconds(nanos);
        let expected = (moment - start).whole_seconds() as u64 / 86_400 + 1;
        assert_eq!(config.epoch_id_for_time(at(moment.unix_timestamp_nanos())), expected);
    }
}

#[test]
fn dates_in_utc() {
    let at = |year, ordinal, hour, minute, second| {
        PrimitiveDateTime { year, ordinal, hour, minute, second }.assume_utc_timestamp()
    };
    assert_eq!(at(1970, 1, 0, 0, 0), 0);
    assert_eq!(at(2019, 1, 0, 0, 0), 1_546_300_800);
    assert_eq!(at(2000, 366, 23, 59, 59), 978_307_199);
    assert_eq!(at(1969, 365, 23, 59, 59), -1);
    assert_eq!(at(-9999, 1, 0, 0, 0), MIN_UNIX_TIMESTAMP);
    assert_eq!(at(9999, 365, 23, 59, 59), MAX_UNIX_TIMESTAMP);
    assert_eq!(at(0, 60, 1, 2, 3), -62_162_117_877);
}

#[test]
fn default_parameters() {
    let params: PoolGenParamsConsensus<u16> = Default::default();
    assert_eq!(params.important_param, 3);
    assert_eq!(params.start_epoch_at, None);
    assert_eq!(params.epoch_length, 24 * 60 * 60);
    assert_eq!(params.oracle_config, OracleConfig::File("./misc/offline_oracle".to_string()));
    assert_eq!(params.collateral_ratio, 0);
}

#[test]
fn client_config_shown() {
    assert_eq!(PoolClientConfig::<u8>::shown("{\"oracle\":\"BitMex\"}"), "PoolClientConfig {\"oracle\":\"BitMex\"}");
}
