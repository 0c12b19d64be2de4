use vstd::prelude::*;

use crate::error::{Error, ErrorKind};
use crate::status::{RetCode, status_of};

verus! {

/// Whether a routine's report of its first index and its count of values
/// can be taken up by a buffer that holds `capacity` values.
pub open spec fn output_fits(begin: i32, size: i32, capacity: nat) -> bool {
    0 <= begin && 0 <= size && size <= capacity
}

/// The error for a routine that returned `status`, where that status is not
/// success or the reported range does not fit the buffer.
pub open spec fn failure_of(status: i32) -> Error {
    if status != 0 {
        Error { kind: ErrorKind::Status(status_of(status)) }
    } else {
        Error { kind: ErrorKind::OutputOutOfRange }
    }
}

/// Takes up the output of a routine with one output series: `status` is the
/// code it returned, `begin` the index of the first input that has a value,
/// `size` the number of values it wrote to the front of `buffer`.
///
/// On success, returns the values written and `begin`.
pub fn single_output<T>(status: i32, begin: i32, size: i32, buffer: Vec<T>) -> (r: Result<
    (Vec<T>, usize),
    Error,
>)
    ensures
        r is Ok <==> status == 0 && output_fits(begin, size, buffer@.len()),
        r matches Ok((values, first)) ==> values@ == buffer@.subrange(0, size as int) && first
            == begin,
        r matches Err(e) ==> e == failure_of(status),
{
    if status != 0 {
        return Err(Error { kind: ErrorKind::Status(RetCode::from_code(status)) });
    }
    if begin < 0 || size < 0 || size as usize > buffer.len() {
        return Err(Error { kind: ErrorKind::OutputOutOfRange });
    }
    let mut values = buffer;
    values.truncate(size as usize);
    Ok((values, begin as usize))
}

/// Takes up the output of a routine with three output series (upper, middle
/// and lower band), in the way of `single_output`: each buffer keeps the
/// first `size` values.
pub fn band_outputs<T>(
    status: i32,
    begin: i32,
    size: i32,
    upper: Vec<T>,
    middle: Vec<T>,
    lower: Vec<T>,
) -> (r: Result<(Vec<T>, Vec<T>, Vec<T>, usize), Error>)
    ensures
        r is Ok <==> status == 0 && output_fits(begin, size, upper@.len()) && output_fits(
            begin,
            size,
            middle@.len(),
        ) && output_fits(begin, size, lower@.len()),
        r matches Ok((u, m, l, first)) ==> u@ == upper@.subrange(0, size as int) && m@
            == middle@.subrange(0, size as int) && l@ == lower@.subrange(0, size as int) && first
            == begin,
        r matches Err(e) ==> e == failure_of(status),
{
    if status != 0 {
        return Err(Error { kind: ErrorKind::Status(RetCode::from_code(status)) });
    }
    if begin < 0 || size < 0 || size as usize > upper.len() || size as usize > middle.len()
        || size as usize > lower.len() {
        return Err(Error { kind: ErrorKind::OutputOutOfRange });
    }
    let mut u = upper;
    let mut m = middle;
    let mut l = lower;
    u.truncate(size as usize);
    m.truncate(size as usize);
    l.truncate(size as usize);
    Ok((u, m, l, begin as usize))
}

} // verus!
