use solana_validator_dao::errors::ValidatorDaoErrors;
use solana_validator_dao::periodicity::PaymentPeriodicity;

#[test]
fn periodicity_from_known_bytes() {
    assert_eq!(PaymentPeriodicity::from(0u8), PaymentPeriodicity::Yearly);
    assert_eq!(PaymentPeriodicity::from(1u8), PaymentPeriodicity::Monthly);
    assert_eq!(PaymentPeriodicity::from(2u8), PaymentPeriodicity::Weekly);
    assert_eq!(PaymentPeriodicity::from(3u8), PaymentPeriodicity::Daily);
}

#[test]
fn periodicity_from_other_bytes_is_unknown() {
    for v in 4u8..=255 {
        assert_eq!(PaymentPeriodicity::from(v), PaymentPeriodicity::Unknown);
    }
}

#[test]
fn seconds_in_each_period() {
    assert_eq!(PaymentPeriodicity::number_of_seconds_in_period(PaymentPeriodicity::Daily), 86_400);
    assert_eq!(PaymentPeriodicity::number_of_seconds_in_period(PaymentPeriodicity::Weekly), 604_800);
    assert_eq!(PaymentPeriodicity::number_of_seconds_in_period(PaymentPeriodicity::Monthly), 2_592_000);
    assert_eq!(PaymentPeriodicity::number_of_seconds_in_period(PaymentPeriodicity::Yearly), 31_536_000);
    assert_eq!(PaymentPeriodicity::number_of_seconds_in_period(PaymentPeriodicity::Unknown), 0);
}

#[test]
fn to_secs_multiplies_by_periods() {
    assert_eq!(PaymentPeriodicity::Weekly.to_secs(2), 1_209_600);
    assert_eq!(PaymentPeriodicity::Monthly.to_secs(12), 31_104_000);
    assert_eq!(PaymentPeriodicity::Daily.to_secs(0), 0);
    assert_eq!(PaymentPeriodicity::Unknown.to_secs(1000), 0);
}

#[test]
fn to_secs_never_saturates() {
    let most = PaymentPeriodicity::Yearly.to_secs(u32::MAX);
    assert_eq!(most, 31_536_000u64 * u32::MAX as u64);
    assert!(most < u64::MAX);
}

#[test]
fn to_secs_is_monotone() {
    let p = PaymentPeriodicity::Daily;
    let mut last = 0u64;
    for n in [0u32, 1, 2, 10, 1000, u32::MAX] {
        let s = p.to_secs(n);
        assert!(s >= last);
        last = s;
    }
}

#[test]
fn known_periodicities_last_some_time() {
    for v in 0u8..=255 {
        let p = PaymentPeriodicity::from(v);
        let secs = PaymentPeriodicity::number_of_seconds_in_period(p);
        assert_eq!(p != PaymentPeriodicity::Unknown, v < 4);
        assert_eq!(secs > 0, v < 4);
    }
}

#[test]
fn error_codes_and_messages() {
    let all = [
        (ValidatorDaoErrors::NameTooLarge, 6000u32, "Name too large"),
        (ValidatorDaoErrors::DescriptionTooLarge, 6001, "Description too large"),
        (ValidatorDaoErrors::ContractNotYetStarted, 6002, "Contract has not started yet"),
        (ValidatorDaoErrors::ContractNotSignedByProvider, 6003, "Contract not yet signed by the provider"),
        (ValidatorDaoErrors::UnknownPeriodicity, 6004, "Unknown periodicity"),
        (ValidatorDaoErrors::Default, 6005, "default"),
    ];
    for (e, code, msg) in all {
        assert_eq!(e.code(), code);
        assert_eq!(e.message(), msg);
    }
}
