//! The Modbus requests that the controller sends to a tap's Modbus server:
//! where they go, which points they cover, and what is kept of the replies.

use vstd::prelude::*;

verus! {

/// The TCP port of a tap's Modbus server.
pub const MODBUS_PORT: u16 = 502;

/// How many requests a client channel queues at most.
pub const MAX_QUEUED_REQUESTS: usize = 10;

/// The Modbus unit addressed on a tap's server.
pub const UNIT_ID: u8 = 1;

/// How long a request waits for its response, in milliseconds.
pub const RESPONSE_TIMEOUT_MS: u64 = 1000;

#[verifier::external_type_specification]
#[verifier::external_body]
pub struct ExRequestError(rodbus::RequestError);

/// A contiguous range of Modbus points: the first address and how many.
#[derive(Clone, Copy, Debug, PartialEq, Eq, Structural)]
pub struct RegisterSpan {
    pub start: u16,
    pub count: u16,
}

/// Why a range of Modbus points is refused.
#[derive(Clone, Copy, Debug, PartialEq, Eq, Structural)]
pub enum RangeError {
    /// The range holds no point.
    CountOfZero,
    /// The range, with this start and count, runs past address 0xFFFF.
    AddressOverflow(u16, u16),
    /// The count, first, is above the limit, second, of the request.
    CountTooLargeForType(u16, u16),
}

/// A range from `start` holding `count` points, as the Modbus client accepts
/// or refuses it.
pub open spec fn span_spec(start: u16, count: u16) -> Result<RegisterSpan, RangeError> {
    if count == 0 {
        Err(RangeError::CountOfZero)
    } else if start + count - 1 > u16::MAX {
        Err(RangeError::AddressOverflow(start, count))
    } else {
        Ok(RegisterSpan { start, count })
    }
}

/// Calls `rodbus::AddressRange::try_from(start, count)`.  Its source refuses
/// a count of zero, then a range whose last address `start + count - 1` does
/// not fit in a `u16`, and otherwise keeps `start` and `count`; the range
/// comes back as its two fields, the refusal as the same variant.
#[verifier::external_body]
fn address_range_try_from(start: u16, count: u16) -> (r: Result<RegisterSpan, RangeError>)
    ensures
        r == span_spec(start, count),
{
    match rodbus::AddressRange::try_from(start, count) {
        Ok(range) => Ok(RegisterSpan { start: range.start, count: range.count }),
        Err(rodbus::InvalidRange::CountOfZero) => Err(RangeError::CountOfZero),
        Err(rodbus::InvalidRange::AddressOverflow(s, c)) => Err(RangeError::AddressOverflow(s, c)),
        Err(rodbus::InvalidRange::CountTooLargeForType(c, l)) => Err(
            RangeError::CountTooLargeForType(c, l),
        ),
    }
}

/// The range read for a point of a tap: it starts at the point's address
/// and holds as many points as that address says.
pub fn read_range(register_address: u16) -> (r: Result<RegisterSpan, RangeError>)
    ensures
        r == span_spec(register_address, register_address),
{
    address_range_try_from(register_address, register_address)
}

/// The value kept of a read: the first point of the reply, or the failure.
pub fn first_reading<T: Copy>(outcome: Result<Vec<T>, rodbus::RequestError>) -> (r: Result<
    T,
    rodbus::RequestError,
>)
    requires
        outcome matches Ok(values) ==> values@.len() > 0,
    ensures
        match outcome {
            Ok(values) => r == Ok::<T, rodbus::RequestError>(values@[0]),
            Err(e) => r == Err::<T, rodbus::RequestError>(e),
        },
{
    match outcome {
        Ok(values) => Ok(values[0]),
        Err(e) => Err(e),
    }
}

/// What is kept of a coil write: `true` once the server echoed it, or the failure.
pub fn coil_written<T>(outcome: Result<T, rodbus::RequestError>) -> (r: Result<
    bool,
    rodbus::RequestError,
>)
    ensures
        match outcome {
            Ok(_) => r == Ok::<bool, rodbus::RequestError>(true),
            Err(e) => r == Err::<bool, rodbus::RequestError>(e),
        },
{
    match outcome {
        Ok(_) => Ok(true),
        Err(e) => Err(e),
    }
}

} // verus!
