//! Issued-token records as the excluded persistence layer hands them to
//! the core: the identifier, the opaque token value, and the active flag.

use vstd::prelude::*;
use vstd::string::StrSliceExecFns;

use crate::account::is_uuid;
use crate::account::uuid_ok;
use crate::error::Error;

verus! {

/// A token record identifier: a string in UUID form.
#[derive(Debug, Clone)]
pub struct Id {
    value: String,
}

impl View for Id {
    type V = Seq<char>;

    closed spec fn view(&self) -> Seq<char> {
        self.value@
    }
}

impl Id {
    /// Accepts a string exactly when it is in UUID form.
    pub fn try_from(value: String) -> (r: Result<Id, Error>)
        ensures
            r is Ok <==> uuid_ok(value@),
            r matches Ok(id) ==> id@ == value@,
            r matches Err(e) ==> e == Error::ValidationFailed,
    {
        if is_uuid(value.as_str()) {
            Ok(Id { value })
        } else {
            Err(Error::ValidationFailed)
        }
    }

    /// The identifier text.
    pub fn as_str(&self) -> (r: &str)
        ensures
            r@ == self@,
    {
        self.value.as_str()
    }
}

/// A stored bearer-token value: any non-empty string.
#[derive(Debug, Clone)]
pub struct Value {
    value: String,
}

impl View for Value {
    type V = Seq<char>;

    closed spec fn view(&self) -> Seq<char> {
        self.value@
    }
}

impl Value {
    /// Accepts exactly the non-empty strings.
    pub fn new(value: String) -> (r: Result<Value, Error>)
        ensures
            r is Ok <==> value@.len() >= 1,
            r matches Ok(v) ==> v@ == value@,
            r matches Err(e) ==> e == Error::ValidationFailed,
    {
        if value.as_str().unicode_len() >= 1 {
            Ok(Value { value })
        } else {
            Err(Error::ValidationFailed)
        }
    }

    /// The token text.
    pub fn as_str(&self) -> (r: &str)
        ensures
            r@ == self@,
    {
        self.value.as_str()
    }
}

/// Whether a stored token is still active.
#[derive(Debug, Clone, Copy)]
pub struct Active {
    value: bool,
}

impl View for Active {
    type V = bool;

    closed spec fn view(&self) -> bool {
        self.value
    }
}

impl Active {
    /// Wraps the flag.
    pub fn new(value: bool) -> (r: Active)
        ensures
            r@ == value,
    {
        Active { value }
    }

    /// The flag.
    pub fn to_bool(&self) -> (r: bool)
        ensures
            r == self@,
    {
        self.value
    }
}

} // verus!
