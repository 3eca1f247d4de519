//! Account records as the excluded persistence layer hands them to the
//! core: validated value objects, the account entity, and its public
//! projection.

use vstd::prelude::*;

use crate::error::Error;
use crate::signed_url::parse_url_parts;
use crate::signed_url::url_ok;

verus! {

/// Whether a string is one of the textual UUID forms.
pub uninterp spec fn uuid_ok(s: Seq<char>) -> bool;

/// Relies on `uuid::Uuid::try_parse`: acceptance of a string as a UUID is
/// a function of the string alone.
#[verifier::external_body]
pub(crate) fn is_uuid(s: &str) -> (r: bool)
    ensures
        r == uuid_ok(s@),
{
    uuid::Uuid::try_parse(s).is_ok()
}

/// Relies on `uuid::Uuid::new_v4` and its `Display`: a fresh random
/// identifier in the hyphenated form, which `try_parse` accepts.
#[verifier::external_body]
pub(crate) fn new_uuid_string() -> (r: String)
    ensures
        uuid_ok(r@),
{
    uuid::Uuid::new_v4().to_string()
}

/// Whether a string is a valid email address under the HTML5 rule.
pub uninterp spec fn email_ok(s: Seq<char>) -> bool;

/// Relies on `validator::validate_email` (the HTML5 email rule): a
/// function of the string alone.
#[verifier::external_body]
pub(crate) fn is_email(s: &str) -> (r: bool)
    ensures
        r == email_ok(s@),
{
    validator::validate_email(s)
}

/// An account identifier: a string in UUID form.
#[derive(Debug, Clone)]
pub struct Id {
    value: String,
}

impl View for Id {
    type V = Seq<char>;

    closed spec fn view(&self) -> Seq<char> {
        self.value@
    }
}

impl Id {
    /// Accepts a string exactly when it is in UUID form.
    pub fn try_from(value: String) -> (r: Result<Id, Error>)
        ensures
            r is Ok <==> uuid_ok(value@),
            r matches Ok(id) ==> id@ == value@,
            r matches Err(e) ==> e == Error::ValidationFailed,
    {
        if is_uuid(value.as_str()) {
            Ok(Id { value })
        } else {
            Err(Error::ValidationFailed)
        }
    }

    /// The identifier text.
    pub fn as_str(&self) -> (r: &str)
        ensures
            r@ == self@,
    {
        self.value.as_str()
    }
}

/// An account name: any non-empty string.
#[derive(Debug, Clone)]
pub struct Name {
    value: String,
}

impl View for Name {
    type V = Seq<char>;

    closed spec fn view(&self) -> Seq<char> {
        self.value@
    }
}

impl Name {
    /// Accepts exactly the non-empty strings.
    pub fn new(value: String) -> (r: Result<Name, Error>)
        ensures
            r is Ok <==> value@.len() >= 1,
            r matches Ok(n) ==> n@ == value@,
            r matches Err(e) ==> e == Error::ValidationFailed,
    {
        if value.as_str().unicode_len() >= 1 {
            Ok(Name { value })
        } else {
            Err(Error::ValidationFailed)
        }
    }

    /// The name text.
    pub fn as_str(&self) -> (r: &str)
        ensures
            r@ == self@,
    {
        self.value.as_str()
    }
}

/// An account email address.
#[derive(Debug, Clone)]
pub struct Email {
    value: String,
}

impl View for Email {
    type V = Seq<char>;

    closed spec fn view(&self) -> Seq<char> {
        self.value@
    }
}

impl Email {
    /// Accepts exactly the valid email addresses.
    pub fn new(value: String) -> (r: Result<Email, Error>)
        ensures
            r is Ok <==> email_ok(value@),
            r matches Ok(e) ==> e@ == value@,
            r matches Err(e) ==> e == Error::ValidationFailed,
    {
        if is_email(value.as_str()) {
            Ok(Email { value })
        } else {
            Err(Error::ValidationFailed)
        }
    }

    /// The address text.
    pub fn as_str(&self) -> (r: &str)
        ensures
            r@ == self@,
    {
        self.value.as_str()
    }
}

/// An account image location: a parseable URL.
#[derive(Debug, Clone)]
pub struct Image {
    value: String,
}

impl View for Image {
    type V = Seq<char>;

    closed spec fn view(&self) -> Seq<char> {
        self.value@
    }
}

impl Image {
    /// Accepts exactly the parseable URLs.
    pub fn new(value: String) -> (r: Result<Image, Error>)
        ensures
            r is Ok <==> url_ok(value@),
            r matches Ok(i) ==> i@ == value@,
            r matches Err(e) ==> e == Error::ValidationFailed,
    {
        if parse_url_parts(value.as_str()).is_some() {
            Ok(Image { value })
        } else {
            Err(Error::ValidationFailed)
        }
    }

    /// The location text.
    pub fn as_str(&self) -> (r: &str)
        ensures
            r@ == self@,
    {
        self.value.as_str()
    }
}

/// The platform an account logged in through: any non-empty string.
#[derive(Debug, Clone)]
pub struct SocialPlatform {
    value: String,
}

impl View for SocialPlatform {
    type V = Seq<char>;

    closed spec fn view(&self) -> Seq<char> {
        self.value@
    }
}

impl SocialPlatform {
    /// Accepts exactly the non-empty strings.
    pub fn new(value: String) -> (r: Result<SocialPlatform, Error>)
        ensures
            r is Ok <==> value@.len() >= 1,
            r matches Ok(p) ==> p@ == value@,
            r matches Err(e) ==> e == Error::ValidationFailed,
    {
        if value.as_str().unicode_len() >= 1 {
            Ok(SocialPlatform { value })
        } else {
            Err(Error::ValidationFailed)
        }
    }

    /// The platform text.
    pub fn as_str(&self) -> (r: &str)
        ensures
            r@ == self@,
    {
        self.value.as_str()
    }
}

/// The account's identifier on its platform: any non-empty string.
#[derive(Debug, Clone)]
pub struct SocialId {
    value: String,
}

impl View for SocialId {
    type V = Seq<char>;

    closed spec fn view(&self) -> Seq<char> {
        self.value@
    }
}

impl SocialId {
    /// Accepts exactly the non-empty strings.
    pub fn new(value: String) -> (r: Result<SocialId, Error>)
        ensures
            r is Ok <==> value@.len() >= 1,
            r matches Ok(s) ==> s@ == value@,
            r matches Err(e) ==> e == Error::ValidationFailed,
    {
        if value.as_str().unicode_len() >= 1 {
            Ok(SocialId { value })
        } else {
            Err(Error::ValidationFailed)
        }
    }

    /// The identifier text.
    pub fn as_str(&self) -> (r: &str)
        ensures
            r@ == self@,
    {
        self.value.as_str()
    }
}

/// The account's display name on its platform: any non-empty string.
#[derive(Debug, Clone)]
pub struct SocialName {
    value: String,
}

impl View for SocialName {
    type V = Seq<char>;

    closed spec fn view(&self) -> Seq<char> {
        self.value@
    }
}

impl SocialName {
    /// Accepts exactly the non-empty strings.
    pub fn new(value: String) -> (r: Result<SocialName, Error>)
        ensures
            r is Ok <==> value@.len() >= 1,
            r matches Ok(s) ==> s@ == value@,
            r matches Err(e) ==> e == Error::ValidationFailed,
    {
        if value.as_str().unicode_len() >= 1 {
            Ok(SocialName { value })
        } else {
            Err(Error::ValidationFailed)
        }
    }

    /// The name text.
    pub fn as_str(&self) -> (r: &str)
        ensures
            r@ == self@,
    {
        self.value.as_str()
    }
}

/// A validated account record.
#[derive(Debug, Clone)]
pub struct Entity {
    pub id: Id,
    pub name: Name,
    pub email: Email,
    pub image: Image,
    pub social_platform: SocialPlatform,
    pub social_id: SocialId,
    pub social_name: SocialName,
}

impl Entity {
    /// Builds a validated account.  A missing identifier gets a fresh
    /// UUID; every field is validated, and the first failure is reported.
    pub fn new(
        id: Option<String>,
        name: String,
        email: String,
        image: String,
        social_platform: String,
        social_id: String,
        social_name: String,
    ) -> (r: Result<Entity, Error>)
        ensures
            r is Ok <==> {
                &&& (id matches Some(s) ==> uuid_ok(s@))
                &&& name@.len() >= 1
                &&& email_ok(email@)
                &&& url_ok(image@)
                &&& social_platform@.len() >= 1
                &&& social_id@.len() >= 1
                &&& social_name@.len() >= 1
            },
            r matches Ok(e) ==> {
                &&& (id matches Some(s) ==> e.id@ == s@)
                &&& e.name@ == name@
                &&& e.email@ == email@
                &&& e.image@ == image@
                &&& e.social_platform@ == social_platform@
                &&& e.social_id@ == social_id@
                &&& e.social_name@ == social_name@
            },
            r matches Err(e) ==> e == Error::ValidationFailed,
    {
        let id_value = match id {
            Some(s) => s,
            None => new_uuid_string(),
        };
        let id = match Id::try_from(id_value) {
            Ok(v) => v,
            Err(e) => {
                return Err(e);
            },
        };
        let name = match Name::new(name) {
            Ok(v) => v,
            Err(e) => {
                return Err(e);
            },
        };
        let email = match Email::new(email) {
            Ok(v) => v,
            Err(e) => {
                return Err(e);
            },
        };
        let image = match Image::new(image) {
            Ok(v) => v,
            Err(e) => {
                return Err(e);
            },
        };
        let social_platform = match SocialPlatform::new(social_platform) {
            Ok(v) => v,
            Err(e) => {
                return Err(e);
            },
        };
        let social_id = match SocialId::new(social_id) {
            Ok(v) => v,
            Err(e) => {
                return Err(e);
            },
        };
        let social_name = match SocialName::new(social_name) {
            Ok(v) => v,
            Err(e) => {
                return Err(e);
            },
        };
        Ok(Entity { id, name, email, image, social_platform, social_id, social_name })
    }

    /// The account identifier.
    pub fn id(&self) -> (r: &Id)
        ensures
            r == &self.id,
    {
        &self.id
    }

    /// The account name.
    pub fn name(&self) -> (r: &Name)
        ensures
            r == &self.name,
    {
        &self.name
    }

    /// The account email.
    pub fn email(&self) -> (r: &Email)
        ensures
            r == &self.email,
    {
        &self.email
    }

    /// The account image location.
    pub fn image(&self) -> (r: &Image)
        ensures
            r == &self.image,
    {
        &self.image
    }

    /// The login platform.
    pub fn social_platform(&self) -> (r: &SocialPlatform)
        ensures
            r == &self.social_platform,
    {
        &self.social_platform
    }

    /// The platform identifier.
    pub fn social_id(&self) -> (r: &SocialId)
        ensures
            r == &self.social_id,
    {
        &self.social_id
    }

    /// The platform display name.
    pub fn social_name(&self) -> (r: &SocialName)
        ensures
            r == &self.social_name,
    {
        &self.social_name
    }
}

/// The public projection of an account, as responses carry it.
#[derive(Debug, Clone)]
pub struct Account {
    pub name: String,
    pub email: String,
    pub image: String,
    pub social_platform: String,
    pub social_id: String,
    pub social_name: String,
}

impl Account {
    /// Projects an account entity onto its response form, field by field.
    pub fn from(entity: Entity) -> (r: Account)
        ensures
            r.name@ == entity.name@,
            r.email@ == entity.email@,
            r.image@ == entity.image@,
            r.social_platform@ == entity.social_platform@,
            r.social_id@ == entity.social_id@,
            r.social_name@ == entity.social_name@,
    {
        Account {
            name: entity.name.value,
            email: entity.email.value,
            image: entity.image.value,
            social_platform: entity.social_platform.value,
            social_id: entity.social_id.value,
            social_name: entity.social_name.value,
        }
    }
}

} // verus!
