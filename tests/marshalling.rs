use ta_lib::args::{input_range, moving_average_arg, period_arg, MovingAverageType, INTEGER_DEFAULT};
use ta_lib::error::{Error, ErrorKind};
use ta_lib::output::{band_outputs, single_output};
use ta_lib::status::RetCode;

#[test]
fn test_sma() {
    let close_prices = [
        1.087010, 1.087120, 1.087080, 1.087170, 1.087110, 1.087010, 1.087100, 1.087120, 1.087110,
        1.087080, 1.087000, 1.086630, 1.086630, 1.086610, 1.086630, 1.086640, 1.086650, 1.086650,
        1.086670, 1.086630,
    ];

    // The arguments handed to TA-Lib's SMA for these closes and a period of 10.
    let (start, end) = input_range(close_prices.len()).unwrap();
    assert_eq!((start, end), (0, 19));
    let period = period_arg(Some(10)).unwrap();
    assert_eq!(period, 10);

    // With a period of 10 the first 9 closes have no SMA value: TA-Lib reports
    // the first index 9 and 11 values in a buffer sized to the input.
    let buffer: Vec<f64> = vec![0.0; close_prices.len()];
    let (sma_values, begin) = single_output(0, 9, 11, buffer).unwrap();
    assert_eq!(begin, 9);
    assert_eq!(sma_values.len(), 11);

    for (index, value) in sma_values.iter().enumerate() {
        println!("Close index {} = {}", begin + index + 1, value);
    }
}

#[test]
fn status_codes_round_trip() {
    for c in [0, 1, 2, 3, 4, 5, 6, 7, 8, 9, 10, 11, 12, 13, 14, 15, 16, 5000, 0xFFFF, 17, -1, 4999] {
        assert_eq!(RetCode::from_code(c).code(), c);
    }
    assert_eq!(RetCode::from_code(2), RetCode::BadParam);
    assert_eq!(RetCode::from_code(5000), RetCode::InternalError);
    assert_eq!(RetCode::from_code(0xFFFF), RetCode::UnknownErr);
    assert_eq!(RetCode::from_code(17), RetCode::Unrecognized(17));
}

#[test]
fn status_names() {
    assert_eq!(RetCode::Success.name(), "TA_SUCCESS");
    assert_eq!(RetCode::OutOfRangeEndIndex.name(), "TA_OUT_OF_RANGE_END_INDEX");
    assert_eq!(RetCode::Unrecognized(42).name(), "unrecognized status");
}

#[test]
fn error_messages() {
    let e = Error { kind: ErrorKind::Status(RetCode::BadParam) };
    assert_eq!(e.message(), "could not compute function; error: TA_BAD_PARAM");
    let e = Error { kind: ErrorKind::PeriodOutOfRange };
    assert_eq!(e.message(), "period does not fit a C int");
    let e = Error { kind: ErrorKind::InputTooLong };
    assert_eq!(e.message(), "input is too long for a C int index");
    let e = Error { kind: ErrorKind::OutputOutOfRange };
    assert_eq!(e.message(), "routine reported an output range beyond its buffer");
}

#[test]
fn moving_average_codes() {
    assert_eq!(MovingAverageType::SimpleMovingAverage.code(), 0);
    assert_eq!(MovingAverageType::ExponentialMovingAverage.code(), 1);
    assert_eq!(MovingAverageType::MesaAdaptiveMovingAverage.code(), 7);
    assert_eq!(MovingAverageType::TripleGeneralizedDoubleExponentialMovingAverage.code(), 8);
    assert_eq!(moving_average_arg(None), 1);
    assert_eq!(moving_average_arg(Some(MovingAverageType::WeightedMovingAverage)), 2);
}

#[test]
fn period_arguments() {
    assert_eq!(period_arg(None).unwrap(), INTEGER_DEFAULT);
    assert_eq!(INTEGER_DEFAULT, i32::MIN);
    assert_eq!(period_arg(Some(7)).unwrap(), 7);
    assert_eq!(period_arg(Some(i32::MAX as usize)).unwrap(), i32::MAX);
    let e = period_arg(Some(i32::MAX as usize + 1)).unwrap_err();
    assert_eq!(e.kind, ErrorKind::PeriodOutOfRange);
}

#[test]
fn input_ranges() {
    assert_eq!(input_range(1).unwrap(), (0, 0));
    assert_eq!(input_range(4).unwrap(), (0, 3));
    assert_eq!(input_range(i32::MAX as usize + 1).unwrap(), (0, i32::MAX));
    let e = input_range(i32::MAX as usize + 2).unwrap_err();
    assert_eq!(e.kind, ErrorKind::InputTooLong);
}

#[test]
fn single_output_truncates() {
    let (values, begin) = single_output(0, 1, 3, vec![1.5, 2.5, 3.5, 0.0]).unwrap();
    assert_eq!(values, vec![1.5, 2.5, 3.5]);
    assert_eq!(begin, 1);
    let (values, begin) = single_output(0, 0, 0, vec![1.0, 2.0]).unwrap();
    assert!(values.is_empty());
    assert_eq!(begin, 0);
    let (values, _) = single_output(0, 0, 2, vec![1.0, 2.0]).unwrap();
    assert_eq!(values, vec![1.0, 2.0]);
}

#[test]
fn single_output_errors() {
    let e = single_output(2, 0, 1, vec![1.0]).unwrap_err();
    assert_eq!(e.kind, ErrorKind::Status(RetCode::BadParam));
    let e = single_output(12, 0, 0, Vec::<f64>::new()).unwrap_err();
    assert_eq!(e.kind, ErrorKind::Status(RetCode::OutOfRangeStartIndex));
    let e = single_output(0, 0, 3, vec![1.0, 2.0]).unwrap_err();
    assert_eq!(e.kind, ErrorKind::OutputOutOfRange);
    let e = single_output(0, -1, 1, vec![1.0, 2.0]).unwrap_err();
    assert_eq!(e.kind, ErrorKind::OutputOutOfRange);
    let e = single_output(0, 0, -1, vec![1.0, 2.0]).unwrap_err();
    assert_eq!(e.kind, ErrorKind::OutputOutOfRange);
}

#[test]
fn band_outputs_truncate_each_band() {
    let (u, m, l, begin) =
        band_outputs(0, 4, 2, vec![3.0, 4.0, 0.0], vec![2.0, 3.0, 0.0], vec![1.0, 2.0, 0.0]).unwrap();
    assert_eq!(u, vec![3.0, 4.0]);
    assert_eq!(m, vec![2.0, 3.0]);
    assert_eq!(l, vec![1.0, 2.0]);
    assert_eq!(begin, 4);
    let e = band_outputs(0, 0, 2, vec![1.0, 2.0], vec![1.0], vec![1.0, 2.0]).unwrap_err();
    assert_eq!(e.kind, ErrorKind::OutputOutOfRange);
    let e = band_outputs(5000, 0, 0, vec![0.0], vec![0.0], vec![0.0]).unwrap_err();
    assert_eq!(e.kind, ErrorKind::Status(RetCode::InternalError));
}
