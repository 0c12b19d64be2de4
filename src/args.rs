use vstd::prelude::*;

use crate::error::{Error, ErrorKind};

verus! {

/// The value that asks a TA-Lib routine to use its default for an integer
/// parameter (`TA_INTEGER_DEFAULT`, which is `INT_MIN`).
pub const INTEGER_DEFAULT: i32 = -2147483648;

/// The moving average that a TA-Lib routine applies where it takes one.
#[derive(Debug, Clone, Copy, PartialEq, Eq, Structural)]
pub enum MovingAverageType {
    SimpleMovingAverage,
    ExponentialMovingAverage,
    WeightedMovingAverage,
    DoubleExponentialMovingAverage,
    TripleExponentialMovingAverage,
    TriangularMovingAverage,
    KaufmanAdaptiveMovingAverage,
    MesaAdaptiveMovingAverage,
    TripleGeneralizedDoubleExponentialMovingAverage,
}

/// The `TA_MAType` value of each moving average.
pub open spec fn ma_code_of(t: MovingAverageType) -> i32 {
    match t {
        MovingAverageType::SimpleMovingAverage => 0,
        MovingAverageType::ExponentialMovingAverage => 1,
        MovingAverageType::WeightedMovingAverage => 2,
        MovingAverageType::DoubleExponentialMovingAverage => 3,
        MovingAverageType::TripleExponentialMovingAverage => 4,
        MovingAverageType::TriangularMovingAverage => 5,
        MovingAverageType::KaufmanAdaptiveMovingAverage => 6,
        MovingAverageType::MesaAdaptiveMovingAverage => 7,
        MovingAverageType::TripleGeneralizedDoubleExponentialMovingAverage => 8,
    }
}

impl MovingAverageType {
    /// The `TA_MAType` value that TA-Lib takes for this moving average.
    pub fn code(&self) -> (c: i32)
        ensures
            c == ma_code_of(*self),
    {
        match self {
            MovingAverageType::SimpleMovingAverage => 0,
            MovingAverageType::ExponentialMovingAverage => 1,
            MovingAverageType::WeightedMovingAverage => 2,
            MovingAverageType::DoubleExponentialMovingAverage => 3,
            MovingAverageType::TripleExponentialMovingAverage => 4,
            MovingAverageType::TriangularMovingAverage => 5,
            MovingAverageType::KaufmanAdaptiveMovingAverage => 6,
            MovingAverageType::MesaAdaptiveMovingAverage => 7,
            MovingAverageType::TripleGeneralizedDoubleExponentialMovingAverage => 8,
        }
    }
}

/// Distinct moving averages have distinct codes, all in `0..=8`.
pub proof fn lemma_ma_codes_distinct(a: MovingAverageType, b: MovingAverageType)
    ensures
        0 <= ma_code_of(a) <= 8,
        ma_code_of(a) == ma_code_of(b) ==> a == b,
{
}

/// What an optional period is handed to TA-Lib as.
pub open spec fn period_arg_of(period: Option<usize>) -> Result<i32, Error> {
    match period {
        None => Ok(INTEGER_DEFAULT),
        Some(p) => if p <= i32::MAX {
            Ok(p as i32)
        } else {
            Err(Error { kind: ErrorKind::PeriodOutOfRange })
        },
    }
}

/// The integer handed to TA-Lib for an optional period: the default sentinel
/// where none is given, else the period itself.
pub fn period_arg(period: Option<usize>) -> (r: Result<i32, Error>)
    ensures
        r == period_arg_of(period),
{
    match period {
        None => Ok(INTEGER_DEFAULT),
        Some(p) => {
            if p <= i32::MAX as usize {
                Ok(p as i32)
            } else {
                Err(Error { kind: ErrorKind::PeriodOutOfRange })
            }
        },
    }
}

/// The `TA_MAType` handed to TA-Lib for an optional moving average: the
/// exponential one where none is given.
pub fn moving_average_arg(t: Option<MovingAverageType>) -> (c: i32)
    ensures
        t is None ==> c == ma_code_of(MovingAverageType::ExponentialMovingAverage),
        t matches Some(m) ==> c == ma_code_of(m),
{
    match t {
        None => MovingAverageType::ExponentialMovingAverage.code(),
        Some(m) => m.code(),
    }
}

/// The start and end indices that make a TA-Lib routine read the whole of an
/// input of `len` values: `0` and `len - 1`.
pub fn input_range(len: usize) -> (r: Result<(i32, i32), Error>)
    requires
        len > 0,
    ensures
        len - 1 <= i32::MAX ==> r == Ok::<(i32, i32), Error>((0i32, (len - 1) as i32)),
        len - 1 > i32::MAX ==> r == Err::<(i32, i32), Error>(
            Error { kind: ErrorKind::InputTooLong },
        ),
{
    let last = len - 1;
    if last <= i32::MAX as usize {
        Ok((0, last as i32))
    } else {
        Err(Error { kind: ErrorKind::InputTooLong })
    }
}

} // verus!
