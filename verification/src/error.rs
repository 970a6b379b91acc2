//! Structured failure outcomes: a status code with optional payload data.

use crate::status::Status;
use vstd::prelude::*;

verus! {

/// A device-related failure with optional additional payload data. The kind
/// of failure is encoded in the status field; extra payload may sit in the
/// data field.
///
/// Constructing one from the success code is a programming error and is ruled
/// out up front: every value of this type carries a non-success status.
#[derive(Debug, PartialEq, Eq)]
pub struct Error<Data> {
    status: Status,
    data: Data,
}

impl<Data> Error<Data> {
    /// Every failure value carries a non-success status code.
    #[verifier::type_invariant]
    pub closed spec fn inv(self) -> bool {
        !self.status.spec_is_success()
    }

    /// The status code of this failure.
    pub closed spec fn spec_status(self) -> Status {
        self.status
    }

    /// The payload of this failure.
    pub closed spec fn spec_data(self) -> Data {
        self.data
    }

    /// Create a failure outcome from a status code and payload.
    ///
    /// The success code does not name a failure, so it is rejected up front.
    pub fn new(status: Status, data: Data) -> (r: Self)
        requires
            !status.spec_is_success(),
        ensures
            r.spec_status() == status,
            r.spec_data() == data,
    {
        Self { status, data }
    }

    /// Get the status code.
    pub fn status(&self) -> (r: Status)
        ensures
            r == self.spec_status(),
            !r.spec_is_success(),
    {
        proof {
            use_type_invariant(self);
        }
        self.status
    }

    /// Get the payload data.
    pub fn data(&self) -> (r: &Data)
        ensures
            r == self.spec_data(),
    {
        &self.data
    }

    /// Split this failure into its status and its payload.
    pub fn split(self) -> (r: (Status, Data))
        ensures
            r.0 == self.spec_status(),
            r.1 == self.spec_data(),
            !r.0.spec_is_success(),
    {
        proof {
            use_type_invariant(&self);
        }
        let Error { status, data } = self;
        (status, data)
    }
}

} // verus!
