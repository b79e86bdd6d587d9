//! Typed identifiers and names.
//!
//! Each type wraps a primitive validated once at construction; every live
//! value satisfies its format invariant by construction, so downstream code
//! never re-checks it. Identifiers (account, group, document) enforce the
//! engine's charset and length rule; names the byte-length and
//! not-only-whitespace rule; device ids the signed-positive range rule.

use vstd::prelude::*;
use crate::validation::{
    ValidationError, valid_id_string, valid_name_string, id_rejection, name_rejection,
    validate_id_string, validate_name_string,
};

verus! {

/// Identifier of an account (a user).
#[derive(Debug, Clone, PartialEq, Eq, PartialOrd, Ord, Hash)]
pub struct UserId {
    value: String,
}

impl View for UserId {
    type V = Seq<char>;

    closed spec fn view(&self) -> Seq<char> {
        self.value@
    }
}

impl UserId {
    /// Construct a user id from a raw string, enforcing the identifier rule.
    pub fn validate(s: &str) -> (r: Result<UserId, ValidationError>)
        ensures
            r matches Ok(u) ==> valid_id_string(s@) && u@ == s@,
            valid_id_string(s@) ==> r is Ok,
            r matches Err(e) ==> !valid_id_string(s@) && id_rejection(s@, e),
    {
        match validate_id_string(s) {
            Ok(v) => Ok(UserId { value: v }),
            Err(e) => Err(e),
        }
    }

    /// The underlying validated string.
    pub fn id(&self) -> (r: String)
        ensures
            r@ == self@,
    {
        self.value.clone()
    }

    /// A copy carrying the same validated value; unlike the derived clone,
    /// its contract states that the value is preserved.
    pub fn duplicate(&self) -> (r: UserId)
        ensures
            r@ == self@,
    {
        UserId { value: self.value.clone() }
    }
}

/// Identifier of a group.
#[derive(Debug, Clone, PartialEq, Eq, PartialOrd, Ord, Hash)]
pub struct GroupId {
    value: String,
}

impl View for GroupId {
    type V = Seq<char>;

    closed spec fn view(&self) -> Seq<char> {
        self.value@
    }
}

impl GroupId {
    /// Construct a group id from a raw string, enforcing the identifier rule.
    pub fn validate(s: &str) -> (r: Result<GroupId, ValidationError>)
        ensures
            r matches Ok(g) ==> valid_id_string(s@) && g@ == s@,
            valid_id_string(s@) ==> r is Ok,
            r matches Err(e) ==> !valid_id_string(s@) && id_rejection(s@, e),
    {
        match validate_id_string(s) {
            Ok(v) => Ok(GroupId { value: v }),
            Err(e) => Err(e),
        }
    }

    /// The underlying validated string.
    pub fn id(&self) -> (r: String)
        ensures
            r@ == self@,
    {
        self.value.clone()
    }

    /// A copy carrying the same validated value.
    pub fn duplicate(&self) -> (r: GroupId)
        ensures
            r@ == self@,
    {
        GroupId { value: self.value.clone() }
    }
}

/// Identifier of a document.
#[derive(Debug, Clone, PartialEq, Eq, PartialOrd, Ord, Hash)]
pub struct DocumentId {
    value: String,
}

impl View for DocumentId {
    type V = Seq<char>;

    closed spec fn view(&self) -> Seq<char> {
        self.value@
    }
}

impl DocumentId {
    /// Construct a document id from a raw string, enforcing the identifier
    /// rule.
    pub fn validate(s: &str) -> (r: Result<DocumentId, ValidationError>)
        ensures
            r matches Ok(d) ==> valid_id_string(s@) && d@ == s@,
            valid_id_string(s@) ==> r is Ok,
            r matches Err(e) ==> !valid_id_string(s@) && id_rejection(s@, e),
    {
        match validate_id_string(s) {
            Ok(v) => Ok(DocumentId { value: v }),
            Err(e) => Err(e),
        }
    }

    /// The underlying validated string.
    pub fn id(&self) -> (r: String)
        ensures
            r@ == self@,
    {
        self.value.clone()
    }

    /// A copy carrying the same validated value.
    pub fn duplicate(&self) -> (r: DocumentId)
        ensures
            r@ == self@,
    {
        DocumentId { value: self.value.clone() }
    }
}

/// Name of a group.
#[derive(Debug, Clone, PartialEq, Eq, PartialOrd, Ord, Hash)]
pub struct GroupName {
    value: String,
}

impl View for GroupName {
    type V = Seq<char>;

    closed spec fn view(&self) -> Seq<char> {
        self.value@
    }
}

impl GroupName {
    /// Construct a group name from a raw string, enforcing the name rule.
    pub fn validate(s: &str) -> (r: Result<GroupName, ValidationError>)
        ensures
            r matches Ok(n) ==> valid_name_string(s@) && n@ == s@,
            valid_name_string(s@) ==> r is Ok,
            r matches Err(e) ==> !valid_name_string(s@) && name_rejection(s@, e),
    {
        match validate_name_string(s) {
            Ok(v) => Ok(GroupName { value: v }),
            Err(e) => Err(e),
        }
    }

    /// The underlying validated string.
    pub fn name(&self) -> (r: String)
        ensures
            r@ == self@,
    {
        self.value.clone()
    }
}

/// Name of a document.
#[derive(Debug, Clone, PartialEq, Eq, PartialOrd, Ord, Hash)]
pub struct DocumentName {
    value: String,
}

impl View for DocumentName {
    type V = Seq<char>;

    closed spec fn view(&self) -> Seq<char> {
        self.value@
    }
}

impl DocumentName {
    /// Construct a document name from a raw string, enforcing the name rule.
    pub fn validate(s: &str) -> (r: Result<DocumentName, ValidationError>)
        ensures
            r matches Ok(n) ==> valid_name_string(s@) && n@ == s@,
            valid_name_string(s@) ==> r is Ok,
            r matches Err(e) ==> !valid_name_string(s@) && name_rejection(s@, e),
    {
        match validate_name_string(s) {
            Ok(v) => Ok(DocumentName { value: v }),
            Err(e) => Err(e),
        }
    }

    /// The underlying validated string.
    pub fn name(&self) -> (r: String)
        ensures
            r@ == self@,
    {
        self.value.clone()
    }
}

/// Name of a device.
#[derive(Debug, Clone, PartialEq, Eq, PartialOrd, Ord, Hash)]
pub struct DeviceName {
    value: String,
}

impl View for DeviceName {
    type V = Seq<char>;

    closed spec fn view(&self) -> Seq<char> {
        self.value@
    }
}

impl DeviceName {
    /// Construct a device name from a raw string, enforcing the name rule.
    pub fn validate(s: &str) -> (r: Result<DeviceName, ValidationError>)
        ensures
            r matches Ok(n) ==> valid_name_string(s@) && n@ == s@,
            valid_name_string(s@) ==> r is Ok,
            r matches Err(e) ==> !valid_name_string(s@) && name_rejection(s@, e),
    {
        match validate_name_string(s) {
            Ok(v) => Ok(DeviceName { value: v }),
            Err(e) => Err(e),
        }
    }

    /// The underlying validated string.
    pub fn name(&self) -> (r: String)
        ensures
            r@ == self@,
    {
        self.value.clone()
    }
}

/// Identifier of a device.
///
/// The stored unsigned value never exceeds the positive range of a signed
/// 64-bit integer, so the signed form handed across the boundary is always
/// a lossless, non-negative reinterpretation of the stored value.
#[derive(Debug, Clone, Copy, PartialEq, Eq, PartialOrd, Ord, Hash)]
pub struct DeviceId {
    value: u64,
}

impl View for DeviceId {
    type V = int;

    closed spec fn view(&self) -> int {
        self.value as int
    }
}

impl DeviceId {
    /// The invariant every live device id satisfies: it fits the positive
    /// signed 64-bit range.
    #[verifier::type_invariant]
    closed spec fn range_inv(self) -> bool {
        self.value <= i64::MAX as u64
    }

    /// Construct a device id from the boundary's signed raw value. Succeeds
    /// exactly on non-negative input.
    pub fn validate(raw: i64) -> (r: Result<DeviceId, ValidationError>)
        ensures
            raw >= 0 ==> (r matches Ok(d) && d@ == raw),
            raw < 0 ==> (r matches Err(e) && e == (ValidationError::NegativeDeviceId { raw })),
    {
        if raw < 0 {
            Err(ValidationError::NegativeDeviceId { raw })
        } else {
            Ok(DeviceId { value: raw as u64 })
        }
    }

    /// Construct a device id from the engine's unsigned value. Succeeds
    /// exactly when the value fits the positive signed 64-bit range; a larger
    /// value would not survive the signed reinterpretation and is rejected as
    /// an internal-consistency violation.
    pub fn from_unsigned(raw: u64) -> (r: Result<DeviceId, ValidationError>)
        ensures
            raw <= i64::MAX as u64 ==> (r matches Ok(d) && d@ == raw),
            raw > i64::MAX as u64 ==> (r matches Err(e) && e == (
            ValidationError::OversizedDeviceId { raw })),
    {
        if raw <= i64::MAX as u64 {
            Ok(DeviceId { value: raw })
        } else {
            Err(ValidationError::OversizedDeviceId { raw })
        }
    }

    /// The signed form of the id handed across the boundary. By the type
    /// invariant the conversion is lossless and never negative.
    pub fn id(&self) -> (r: i64)
        ensures
            r == self@,
            r >= 0,
    {
        proof {
            use_type_invariant(*self);
        }
        self.value as i64
    }
}

} // verus!
