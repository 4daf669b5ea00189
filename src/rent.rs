//! The cluster's storage-cost schedule, and the balance that keeps an account
//! of a given size exempt from rent.
use vstd::prelude::*;

use crate::error::CreateError;

verus! {

/// The largest data length that an account may have.
pub const MAX_PERMITTED_DATA_LENGTH: u64 = 10485760;

/// Bytes of bookkeeping that the runtime adds to an account's data length.
pub const ACCOUNT_STORAGE_OVERHEAD: u64 = 128;

/// Largest rate per byte accepted under the threshold of one year.
pub const ONE_YEAR_MAX_LAMPORTS_PER_BYTE: u64 = 1_759_197_129_867;

/// Largest rate per byte accepted under the threshold of two years.
pub const TWO_YEARS_MAX_LAMPORTS_PER_BYTE: u64 = 879_598_564_933;

/// The storage-cost schedule, as the rent sysvar holds it.
#[derive(Debug, Clone, Copy)]
pub struct RentSchedule {
    /// Rental rate in lamports per byte.
    pub lamports_per_byte: u64,
    /// The exemption threshold in years, as the bytes of a little-endian `f64`.
    pub exemption_threshold: [u8; 8],
    /// Share of collected rent that is burned; it takes no part in the balance.
    pub burn_percent: u8,
}

/// An exemption threshold of one year: the bytes of `1.0f64`.
pub open spec fn threshold_one_year() -> Seq<u8> {
    seq![0u8, 0u8, 0u8, 0u8, 0u8, 0u8, 240u8, 63u8]
}

/// An exemption threshold of two years: the bytes of `2.0f64`.
pub open spec fn threshold_two_years() -> Seq<u8> {
    seq![0u8, 0u8, 0u8, 0u8, 0u8, 0u8, 0u8, 64u8]
}

/// The minimum balance that the rent schedule asks of an account holding
/// `data_len` bytes, or `None` where the schedule gives none.
pub uninterp spec fn minimum_balance_of(
    lamports_per_byte: u64,
    exemption_threshold: Seq<u8>,
    data_len: usize,
) -> Option<u64>;

/// The schedule's computation of a balance for `data_len` bytes runs without
/// overflow: either the threshold is one of the two whole-year values, whose
/// rates are bounded, or the length is refused outright, or the product of
/// size and rate fits in 64 bits.
pub open spec fn balance_computable(s: RentSchedule, data_len: u64) -> bool {
    ||| s.exemption_threshold@ == threshold_one_year()
    ||| s.exemption_threshold@ == threshold_two_years()
    ||| data_len > MAX_PERMITTED_DATA_LENGTH
    ||| (ACCOUNT_STORAGE_OVERHEAD + data_len) * s.lamports_per_byte <= u64::MAX
}

/// Relies on `Rent::try_minimum_balance`: `None` past the permitted data
/// length or past the rate bound of a whole-year threshold; otherwise the size
/// plus overhead times the rate, times the threshold in years.
#[verifier::external_body]
fn try_minimum_balance(s: &RentSchedule, data_len: usize) -> (r: Option<u64>)
    requires
        balance_computable(*s, data_len as u64),
    ensures
        r == minimum_balance_of(s.lamports_per_byte, s.exemption_threshold@, data_len),
        data_len > MAX_PERMITTED_DATA_LENGTH ==> r is None,
        data_len <= MAX_PERMITTED_DATA_LENGTH && s.exemption_threshold@ == threshold_one_year()
            ==> r == if s.lamports_per_byte > ONE_YEAR_MAX_LAMPORTS_PER_BYTE {
            None
        } else {
            Some(((ACCOUNT_STORAGE_OVERHEAD + data_len) * s.lamports_per_byte) as u64)
        },
        data_len <= MAX_PERMITTED_DATA_LENGTH && s.exemption_threshold@ == threshold_two_years()
            ==> r == if s.lamports_per_byte > TWO_YEARS_MAX_LAMPORTS_PER_BYTE {
            None
        } else {
            Some((2 * (ACCOUNT_STORAGE_OVERHEAD + data_len) * s.lamports_per_byte) as u64)
        },
        data_len <= MAX_PERMITTED_DATA_LENGTH && s.exemption_threshold@ != threshold_one_year()
            && s.exemption_threshold@ != threshold_two_years() ==> r is Some,
{
    #[allow(deprecated)]
    let rent = solana_program::rent::Rent {
        lamports_per_byte: s.lamports_per_byte,
        exemption_threshold: s.exemption_threshold,
        burn_percent: s.burn_percent,
    };
    rent.try_minimum_balance(data_len)
}

/// Relies on `Rent::get` (the rent sysvar): the schedule in force, or `None`
/// where the runtime supplies none. What it returns depends on the host.
#[verifier::external_body]
pub(crate) fn current_rent_schedule() -> (r: Option<RentSchedule>) {
    match <solana_program::rent::Rent as solana_program::sysvar::Sysvar>::get() {
        #[allow(deprecated)]
        Ok(rent) => Some(
            RentSchedule {
                lamports_per_byte: rent.lamports_per_byte,
                exemption_threshold: rent.exemption_threshold,
                burn_percent: rent.burn_percent,
            },
        ),
        Err(_) => None,
    }
}

/// The funding that keeps `space` bytes exempt from rent under `s`; the
/// schedule is unusable where it gives no balance for that size, where its
/// computation would overflow, or where the size exceeds the host's `usize`.
pub open spec fn funding_spec(s: RentSchedule, space: u64) -> Result<u64, CreateError> {
    if space > usize::MAX || !balance_computable(s, space) {
        Err(CreateError::CostScheduleUnavailable)
    } else {
        match minimum_balance_of(s.lamports_per_byte, s.exemption_threshold@, space as usize) {
            Some(v) => Ok(v),
            None => Err(CreateError::CostScheduleUnavailable),
        }
    }
}

/// The rent-exempt balance for an account of `space` bytes under `s`.
pub fn funding_amount(s: &RentSchedule, space: u64) -> (r: Result<u64, CreateError>)
    ensures
        r == funding_spec(*s, space),
        s.exemption_threshold@ == threshold_one_year() && space <= MAX_PERMITTED_DATA_LENGTH
            && s.lamports_per_byte <= ONE_YEAR_MAX_LAMPORTS_PER_BYTE ==> r == Ok::<u64, CreateError>(
            ((ACCOUNT_STORAGE_OVERHEAD + space) * s.lamports_per_byte) as u64,
        ),
        s.exemption_threshold@ == threshold_two_years() && space <= MAX_PERMITTED_DATA_LENGTH
            && s.lamports_per_byte <= TWO_YEARS_MAX_LAMPORTS_PER_BYTE ==> r == Ok::<
            u64,
            CreateError,
        >((2 * (ACCOUNT_STORAGE_OVERHEAD + space) * s.lamports_per_byte) as u64),
        space > MAX_PERMITTED_DATA_LENGTH ==> r == Err::<u64, CreateError>(
            CreateError::CostScheduleUnavailable,
        ),
{
    if space > usize::MAX as u64 {
        return Err(CreateError::CostScheduleUnavailable);
    }
    let whole_years = array_eq_8(&s.exemption_threshold, &[0u8, 0u8, 0u8, 0u8, 0u8, 0u8, 240u8, 63u8])
        || array_eq_8(&s.exemption_threshold, &[0u8, 0u8, 0u8, 0u8, 0u8, 0u8, 0u8, 64u8]);
    if !whole_years && space <= MAX_PERMITTED_DATA_LENGTH {
        let size = ACCOUNT_STORAGE_OVERHEAD + space;
        if s.lamports_per_byte != 0 && size > u64::MAX / s.lamports_per_byte {
            assert(size * s.lamports_per_byte > u64::MAX) by (nonlinear_arith)
                requires
                    s.lamports_per_byte > 0,
                    size > u64::MAX / s.lamports_per_byte,
            ;
            return Err(CreateError::CostScheduleUnavailable);
        }
        assert(size * s.lamports_per_byte <= u64::MAX) by (nonlinear_arith)
            requires
                s.lamports_per_byte == 0 || size <= u64::MAX / s.lamports_per_byte,
        ;
    }
    match try_minimum_balance(s, space as usize) {
        Some(v) => Ok(v),
        None => Err(CreateError::CostScheduleUnavailable),
    }
}

/// Whether two 8-byte arrays hold the same bytes.
fn array_eq_8(a: &[u8; 8], b: &[u8; 8]) -> (r: bool)
    ensures
        r == (a@ == b@),
{
    let mut i: usize = 0;
    while i < 8
        invariant
            i <= 8,
            a@.subrange(0, i as int) == b@.subrange(0, i as int),
        decreases 8 - i,
    {
        if a[i] != b[i] {
            return false;
        }
        assert(a@.subrange(0, i + 1) =~= a@.subrange(0, i as int).push(a@[i as int]));
        assert(b@.subrange(0, i + 1) =~= b@.subrange(0, i as int).push(b@[i as int]));
        i = i + 1;
    }
    assert(a@ =~= a@.subrange(0, 8));
    assert(b@ =~= b@.subrange(0, 8));
    true
}

} // verus!
