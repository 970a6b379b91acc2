//! Raw status codes reported by the firmware, and their classification into
//! success, warning and error outcomes.

use crate::error::Error;
use vstd::prelude::*;

verus! {

/// The one reserved code that denotes plain success.
pub const SUCCESS: u64 = 0;

/// Warning: the device could not render every character that was handed to it.
pub const WARN_UNKNOWN_GLYPH: u64 = 1;
/// Warning: the handle on which a delete was requested was closed, but the
/// file was not deleted.
pub const WARN_DELETE_FAILURE: u64 = 2;
/// Warning: the handle was closed, but the data was not flushed properly.
pub const WARN_WRITE_FAILURE: u64 = 3;

/// Every error code has this high bit set; warnings and the success code do
/// not. The partition is fixed by the firmware's calling convention and must
/// be reproduced bit-exactly.
pub const ERROR_BIT: u64 = 0x8000_0000_0000_0000;

/// Error: the image failed to load.
pub const LOAD_ERROR: u64 = 0x8000_0000_0000_0001;
/// Error: a parameter was incorrect.
pub const INVALID_PARAMETER: u64 = 0x8000_0000_0000_0002;
/// Error: the operation is not supported, or the queried item does not exist.
pub const UNSUPPORTED: u64 = 0x8000_0000_0000_0003;
/// Error: the buffer was not the proper size for the request.
pub const BAD_BUFFER_SIZE: u64 = 0x8000_0000_0000_0004;
/// Error: the buffer is not large enough to hold the requested data.
pub const BUFFER_TOO_SMALL: u64 = 0x8000_0000_0000_0005;
/// Error: there is no data pending upon return.
pub const NOT_READY: u64 = 0x8000_0000_0000_0006;
/// Error: the physical device reported an error while attempting the operation.
pub const DEVICE_ERROR: u64 = 0x8000_0000_0000_0007;

/// A raw, totally ordered status code as the firmware returns it.
///
/// Exactly one value ([`SUCCESS`]) denotes success; low positive values are
/// warnings (successes with auxiliary information); values with the high bit
/// set are errors.
#[derive(Clone, Copy, Debug, PartialEq, Eq, Structural)]
pub struct Status(pub u64);

impl Status {
    /// Whether this code is the reserved success value.
    pub open spec fn spec_is_success(self) -> bool {
        self.0 == SUCCESS
    }

    /// Whether this code is a warning: a non-success outcome without the
    /// error bit.
    pub open spec fn spec_is_warning(self) -> bool {
        self.0 != SUCCESS && self.0 < ERROR_BIT
    }

    /// Whether this code is an error: the high bit is set.
    pub open spec fn spec_is_error(self) -> bool {
        self.0 >= ERROR_BIT
    }

    /// Whether this code is the reserved success value.
    #[verifier::when_used_as_spec(spec_is_success)]
    pub fn is_success(self) -> (r: bool)
        ensures
            r == self.spec_is_success(),
    {
        self.0 == SUCCESS
    }

    /// Whether this code is a warning.
    #[verifier::when_used_as_spec(spec_is_warning)]
    pub fn is_warning(self) -> (r: bool)
        ensures
            r == self.spec_is_warning(),
    {
        self.0 != SUCCESS && self.0 < ERROR_BIT
    }

    /// Whether this code is an error.
    #[verifier::when_used_as_spec(spec_is_error)]
    pub fn is_error(self) -> (r: bool)
        ensures
            r == self.spec_is_error(),
    {
        self.0 >= ERROR_BIT
    }

    /// Turns this raw code into a structured outcome: success becomes `Ok`,
    /// every other code becomes an error value that carries it.
    pub fn to_result(self) -> (r: Result<(), Error<()>>)
        ensures
            self.is_success() ==> r == Ok::<(), Error<()>>(()),
            !self.is_success() ==> (r matches Err(e) && e.spec_status() == self && e.spec_data() == ()),
    {
        if self.is_success() {
            Ok(())
        } else {
            Err(Error::new(self, ()))
        }
    }

    /// Like [`Status::to_result`], but a successful outcome carries `value`.
    pub fn to_result_with<T>(self, value: T) -> (r: Result<T, Error<()>>)
        ensures
            self.is_success() ==> (r matches Ok(v) && v == value),
            !self.is_success() ==> (r matches Err(e) && e.spec_status() == self && e.spec_data() == ()),
    {
        if self.is_success() {
            Ok(value)
        } else {
            Err(Error::new(self, ()))
        }
    }
}

/// Every status code falls in exactly one of the three classes: the one
/// success value, the warnings, or the errors.
pub proof fn lemma_status_partition(st: Status)
    ensures
        st.spec_is_success() ==> (!st.spec_is_warning() && !st.spec_is_error()),
        st.spec_is_warning() ==> (!st.spec_is_success() && !st.spec_is_error()),
        st.spec_is_error() ==> (!st.spec_is_success() && !st.spec_is_warning()),
        st.spec_is_success() || st.spec_is_warning() || st.spec_is_error(),
{
}

} // verus!
