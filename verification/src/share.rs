//! Share records as the excluded persistence layer hands them to the
//! core: the identifier and name value objects.

use vstd::prelude::*;
use vstd::string::StrSliceExecFns;

use crate::account::is_uuid;
use crate::account::uuid_ok;
use crate::error::Error;

verus! {

/// A share identifier: a string in UUID form.
#[derive(Debug, Clone)]
pub struct Id {
    value: String,
}

impl View for Id {
    type V = Seq<char>;

    closed spec fn view(&self) -> Seq<char> {
        self.value@
    }
}

impl Id {
    /// Accepts a string exactly when it is in UUID form.
    pub fn try_from(value: String) -> (r: Result<Id, Error>)
        ensures
            r is Ok <==> uuid_ok(value@),
            r matches Ok(id) ==> id@ == value@,
            r matches Err(e) ==> e == Error::ValidationFailed,
    {
        if is_uuid(value.as_str()) {
            Ok(Id { value })
        } else {
            Err(Error::ValidationFailed)
        }
    }

    /// The identifier text.
    pub fn as_str(&self) -> (r: &str)
        ensures
            r@ == self@,
    {
        self.value.as_str()
    }
}

/// A share name: any non-empty string.
#[derive(Debug, Clone)]
pub struct Name {
    value: String,
}

impl View for Name {
    type V = Seq<char>;

    closed spec fn view(&self) -> Seq<char> {
        self.value@
    }
}

impl Name {
    /// Accepts exactly the non-empty strings.
    pub fn new(value: String) -> (r: Result<Name, Error>)
        ensures
            r is Ok <==> value@.len() >= 1,
            r matches Ok(n) ==> n@ == value@,
            r matches Err(e) ==> e == Error::ValidationFailed,
    {
        if value.as_str().unicode_len() >= 1 {
            Ok(Name { value })
        } else {
            Err(Error::ValidationFailed)
        }
    }

    /// The name text.
    pub fn as_str(&self) -> (r: &str)
        ensures
            r@ == self@,
    {
        self.value.as_str()
    }
}

} // verus!
