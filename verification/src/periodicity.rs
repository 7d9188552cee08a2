//! Payment periodicity of a governance contract and its length in seconds.
use vstd::prelude::*;

verus! {

/// How often the recurring amount of a contract is paid.
#[derive(Clone, Copy, Debug, PartialEq, Eq, Structural)]
pub enum PaymentPeriodicity {
    Yearly,
    Monthly,
    Weekly,
    Daily,
    Unknown,
}

/// The periodicity that a raw byte stands for: 0 to 3 name a period,
/// every other byte is `Unknown`.
pub open spec fn periodicity_of_byte(v: u8) -> PaymentPeriodicity {
    if v == 0 {
        PaymentPeriodicity::Yearly
    } else if v == 1 {
        PaymentPeriodicity::Monthly
    } else if v == 2 {
        PaymentPeriodicity::Weekly
    } else if v == 3 {
        PaymentPeriodicity::Daily
    } else {
        PaymentPeriodicity::Unknown
    }
}

/// Length of one period in seconds; an unknown period lasts no time.
pub open spec fn period_seconds(period: PaymentPeriodicity) -> nat {
    match period {
        PaymentPeriodicity::Daily => 86400,
        PaymentPeriodicity::Weekly => 7 * 86400,
        PaymentPeriodicity::Monthly => 30 * 86400,
        PaymentPeriodicity::Yearly => 365 * 86400,
        PaymentPeriodicity::Unknown => 0,
    }
}

/// `x * y`, held at `u64::MAX` where it would not fit.
pub open spec fn saturated_product(x: u64, y: u64) -> u64 {
    if x * y > u64::MAX {
        u64::MAX
    } else {
        (x * y) as u64
    }
}

/// Multiplication that saturates at `u64::MAX`, as `u64::saturating_mul` does.
fn saturating_mul_u64(x: u64, y: u64) -> (r: u64)
    ensures
        r == saturated_product(x, y),
{
    match x.checked_mul(y) {
        Some(v) => v,
        None => u64::MAX,
    }
}

impl From<u8> for PaymentPeriodicity {
    fn from(v: u8) -> (r: Self) {
        match v {
            0 => PaymentPeriodicity::Yearly,
            1 => PaymentPeriodicity::Monthly,
            2 => PaymentPeriodicity::Weekly,
            3 => PaymentPeriodicity::Daily,
            _ => PaymentPeriodicity::Unknown,
        }
    }
}

impl vstd::std_specs::convert::FromSpecImpl<u8> for PaymentPeriodicity {
    open spec fn obeys_from_spec() -> bool {
        true
    }

    open spec fn from_spec(v: u8) -> PaymentPeriodicity {
        periodicity_of_byte(v)
    }
}

impl PaymentPeriodicity {
    /// Number of seconds in one period of `period`.
    pub fn number_of_seconds_in_period(period: PaymentPeriodicity) -> (r: u64)
        ensures
            r == period_seconds(period),
        decreases
            match period {
                PaymentPeriodicity::Daily => 0nat,
                _ => 1nat,
            },
    {
        let number_of_seconds_in_period: u64 = match period {
            PaymentPeriodicity::Daily => 60 * 60 * 24,
            PaymentPeriodicity::Weekly => {
                saturating_mul_u64(Self::number_of_seconds_in_period(PaymentPeriodicity::Daily), 7)
            },
            PaymentPeriodicity::Monthly => {
                saturating_mul_u64(Self::number_of_seconds_in_period(PaymentPeriodicity::Daily), 30)
            },
            PaymentPeriodicity::Yearly => {
                saturating_mul_u64(Self::number_of_seconds_in_period(PaymentPeriodicity::Daily), 365)
            },
            PaymentPeriodicity::Unknown => 0,
        };
        number_of_seconds_in_period
    }

    /// Length in seconds of `number_of_periods` periods. The product never
    /// reaches `u64::MAX`, so it is exact.
    pub fn to_secs(&self, number_of_periods: u32) -> (r: u64)
        ensures
            r == period_seconds(*self) * number_of_periods,
    {
        let secs = Self::number_of_seconds_in_period(*self);
        let n: u64 = number_of_periods as u64;
        assert(secs * n <= 365 * 86400 * 0xffff_ffff) by (nonlinear_arith)
            requires
                secs <= 365 * 86400,
                n <= 0xffff_ffff,
        ;
        saturating_mul_u64(secs, n)
    }
}

} // verus!
