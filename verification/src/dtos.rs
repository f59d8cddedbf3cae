//! What the operations take from a request and give to a response, and the
//! rules that a request's fields are held to.

use vstd::prelude::*;
use crate::error::{Field, ServiceError};
use crate::models::{File, User};

verus! {

/// The parse error of `chrono`, carried through and never looked into.
#[verifier::external_type_specification]
#[verifier::external_body]
pub struct ExChronoParseError(chrono::ParseError);

/// Whether a text is an email address by the rules of HTML5 forms.
pub uninterp spec fn is_email(text: Seq<char>) -> bool;

/// The seconds since the Unix epoch of the instant that an RFC 3339 text
/// writes, without its fraction of a second, or `None` for any other text.
pub uninterp spec fn rfc3339_timestamp(text: Seq<char>) -> Option<i64>;

/// `validator::validate_email`: its answer is the function of the text that
/// `is_email` names.
#[verifier::external_body]
fn email_is_valid(text: &str) -> (r: bool)
    ensures
        r == is_email(text@),
{
    validator::validate_email(text)
}

/// `DateTime::parse_from_rfc3339` and `DateTime::timestamp` of what was
/// parsed: the function of the text that `rfc3339_timestamp` names.
#[verifier::external_body]
fn parse_rfc3339(text: &str) -> (r: Result<i64, chrono::ParseError>)
    ensures
        match r {
            Ok(t) => rfc3339_timestamp(text@) == Some(t),
            Err(_) => rfc3339_timestamp(text@) is None,
        },
{
    Ok(chrono::DateTime::parse_from_rfc3339(text)?.timestamp())
}

/// The shortest password that a form accepts, in characters.
pub const MIN_PASSWORD_LENGTH: usize = 6;

/// What a user sees of a user's own record.
#[derive(Debug)]
pub struct FilterUserDto {
    pub id: String,
    pub name: String,
    pub email: String,
    pub public_key: String,
}

impl FilterUserDto {
    /// The identity in hexadecimal digits, the name, the email address and
    /// the stored public key of a user; never the password's hash.
    pub fn filter_user(user: &User) -> (r: Self)
        ensures
            r.id@ == user._id.hex(),
            r.name@ == user.username@,
            r.email@ == user.email@,
            r.public_key@ == user.public_key@,
    {
        FilterUserDto {
            id: user._id.to_hex(),
            name: user.username.clone(),
            email: user.email.clone(),
            public_key: user.public_key.clone(),
        }
    }
}

/// What a search shows of a user.
#[derive(Debug)]
pub struct FilterSearchUserDto {
    pub id: String,
    pub name: String,
    pub email: String,
}

impl FilterSearchUserDto {
    /// The identity in hexadecimal digits, the name and the email address of
    /// a user.
    pub fn filter_user(user: &User) -> (r: Self)
        ensures
            r.id@ == user._id.hex(),
            r.name@ == user.username@,
            r.email@ == user.email@,
    {
        FilterSearchUserDto {
            id: user._id.to_hex(),
            name: user.username.clone(),
            email: user.email.clone(),
        }
    }
}

#[derive(Debug)]
pub struct SearchUserQuery {
    pub email_text: String,
}

#[derive(Debug)]
pub struct UserData {
    pub user: FilterUserDto,
}

#[derive(Debug)]
pub struct UserResponseDto {
    pub status: String,
    pub data: UserData,
}

#[derive(Debug)]
pub struct SearchUserResponseDto {
    pub status: String,
    pub users: Vec<FilterSearchUserDto>,
}

#[derive(Debug, Default)]
pub struct RefreshTokenDto {
    pub refresh_token: String,
}

impl RefreshTokenDto {
    /// The field that breaks a rule, if one does: the token must not be empty.
    pub open spec fn refusal(&self) -> Option<Field> {
        if self.refresh_token@.len() < 1 {
            Some(Field::RefreshToken)
        } else {
            None
        }
    }

    /// Holds the fields to their rules.
    pub fn validate(&self) -> (r: Result<(), ServiceError>)
        ensures
            r == refusal_result(self.refusal()),
    {
        if self.refresh_token.as_str().unicode_len() < 1 {
            return Err(ServiceError::Validation(Field::RefreshToken));
        }
        Ok(())
    }
}

/// The result that stands for a broken rule, or for none.
pub open spec fn refusal_result(refusal: Option<Field>) -> Result<(), ServiceError> {
    match refusal {
        Some(f) => Err(ServiceError::Validation(f)),
        None => Ok(()),
    }
}

#[derive(Debug, Default)]
pub struct RegisterUserDto {
    pub name: String,
    pub email: String,
    pub password: String,
    pub password_confirm: String,
}

impl RegisterUserDto {
    /// The first field that breaks a rule, if one does: a name, an email
    /// address that is one, a password of six characters or more, and the
    /// same password once again.
    pub open spec fn refusal(&self) -> Option<Field> {
        if self.name@.len() < 1 {
            Some(Field::Name)
        } else if self.email@.len() < 1 || !is_email(self.email@) {
            Some(Field::Email)
        } else if self.password@.len() < MIN_PASSWORD_LENGTH {
            Some(Field::Password)
        } else if self.password_confirm@.len() < 1 || self.password_confirm@ != self.password@ {
            Some(Field::PasswordConfirm)
        } else {
            None
        }
    }

    /// Holds the fields to their rules.
    pub fn validate(&self) -> (r: Result<(), ServiceError>)
        ensures
            r == refusal_result(self.refusal()),
    {
        if self.name.as_str().unicode_len() < 1 {
            return Err(ServiceError::Validation(Field::Name));
        }
        if self.email.as_str().unicode_len() < 1 || !email_is_valid(self.email.as_str()) {
            return Err(ServiceError::Validation(Field::Email));
        }
        if self.password.as_str().unicode_len() < MIN_PASSWORD_LENGTH {
            return Err(ServiceError::Validation(Field::Password));
        }
        if self.password_confirm.as_str().unicode_len() < 1 || self.password_confirm
            != self.password {
            return Err(ServiceError::Validation(Field::PasswordConfirm));
        }
        Ok(())
    }
}

#[derive(Debug, Default)]
pub struct LoginUserDto {
    pub email: String,
    pub password: String,
}

impl LoginUserDto {
    /// The first field that breaks a rule, if one does: an email address that
    /// is one, and a password of six characters or more.
    pub open spec fn refusal(&self) -> Option<Field> {
        if self.email@.len() < 1 || !is_email(self.email@) {
            Some(Field::Email)
        } else if self.password@.len() < MIN_PASSWORD_LENGTH {
            Some(Field::Password)
        } else {
            None
        }
    }

    /// Holds the fields to their rules.
    pub fn validate(&self) -> (r: Result<(), ServiceError>)
        ensures
            r == refusal_result(self.refusal()),
    {
        if self.email.as_str().unicode_len() < 1 || !email_is_valid(self.email.as_str()) {
            return Err(ServiceError::Validation(Field::Email));
        }
        if self.password.as_str().unicode_len() < MIN_PASSWORD_LENGTH {
            return Err(ServiceError::Validation(Field::Password));
        }
        Ok(())
    }
}

/// The answer to a registration, a login and a refresh.
#[derive(Debug)]
pub struct RegisterUserResponse {
    pub status_code: i32,
    pub message: String,
    pub access_token: Option<String>,
    pub refresh_token: Option<String>,
}

#[derive(Debug)]
pub struct DeleteFileQuery {
    pub share_id: String,
}

/// A file as a listing shows it.
#[derive(Debug)]
pub struct FilteredFile {
    pub id: String,
    pub name: String,
    pub size: i64,
    pub shared_at: i64,
    pub recipients_email: String,
    pub share_id: Option<String>,
}

impl FilteredFile {
    /// What a listing shows of a file: its identity in hexadecimal digits, its
    /// name, its size and the time of its creation, with the email address
    /// and the share link's identity that are given. Never the ciphertext.
    pub fn filter_file(file: &File, recipients_email: String, share_id: Option<String>) -> (r:
        Self)
        ensures
            r.id@ == file._id.hex(),
            r.name@ == file.file_name@,
            r.size == file.file_size,
            r.shared_at == file.created_at,
            r.recipients_email == recipients_email,
            r.share_id == share_id,
    {
        FilteredFile {
            id: file._id.to_hex(),
            name: file.file_name.clone(),
            size: file.file_size,
            shared_at: file.created_at,
            recipients_email,
            share_id,
        }
    }
}

/// The page of a listing: `skip` is the number of the page, counted from one,
/// and `limit` the number of files on a page.
#[derive(Debug)]
pub struct QueryParams {
    pub skip: Option<i32>,
    pub limit: Option<usize>,
}

/// The page that is shown where the query names none.
pub const DEFAULT_PAGE: i32 = 1;

/// The number of files on a page where the query names none.
pub const DEFAULT_LIMIT: usize = 10;

impl QueryParams {
    /// The page that the query asks for, or `None` where it is negative.
    pub open spec fn page_spec(&self) -> Option<u32> {
        let skip = match self.skip {
            Some(s) => s,
            None => DEFAULT_PAGE,
        };
        if skip < 0 {
            None
        } else {
            Some(skip as u32)
        }
    }

    /// The number of files on a page.
    pub open spec fn limit_spec(&self) -> usize {
        match self.limit {
            Some(l) => l,
            None => DEFAULT_LIMIT,
        }
    }

    /// The page that the query asks for; a negative one is refused.
    pub fn page(&self) -> (r: Result<u32, ServiceError>)
        ensures
            r == match self.page_spec() {
                Some(p) => Ok::<u32, ServiceError>(p),
                None => Err::<u32, ServiceError>(ServiceError::Validation(Field::Page)),
            },
    {
        let skip: i32 = match self.skip {
            Some(s) => s,
            None => DEFAULT_PAGE,
        };
        if skip < 0 {
            Err(ServiceError::Validation(Field::Page))
        } else {
            Ok(skip as u32)
        }
    }

    /// The number of files on a page.
    pub fn page_limit(&self) -> (r: usize)
        ensures
            r == self.limit_spec(),
    {
        match self.limit {
            Some(l) => l,
            None => DEFAULT_LIMIT,
        }
    }
}

#[derive(Debug, Default)]
pub struct RetrieveFileDto {
    pub shared_id: String,
    pub password: String,
}

impl RetrieveFileDto {
    /// The first field that breaks a rule, if one does: the share link's
    /// identity must not be empty, and the password is of six characters or
    /// more.
    pub open spec fn refusal(&self) -> Option<Field> {
        if self.shared_id@.len() < 1 {
            Some(Field::ShareId)
        } else if self.password@.len() < MIN_PASSWORD_LENGTH {
            Some(Field::Password)
        } else {
            None
        }
    }

    /// Holds the fields to their rules.
    pub fn validate(&self) -> (r: Result<(), ServiceError>)
        ensures
            r == refusal_result(self.refusal()),
    {
        if self.shared_id.as_str().unicode_len() < 1 {
            return Err(ServiceError::Validation(Field::ShareId));
        }
        if self.password.as_str().unicode_len() < MIN_PASSWORD_LENGTH {
            return Err(ServiceError::Validation(Field::Password));
        }
        Ok(())
    }
}

#[derive(Debug, Default)]
pub struct RetrieveFileResponse {
    pub file: Vec<u8>,
}

/// The fields of an upload besides the file itself. The expiry is an RFC 3339
/// text.
#[derive(Debug, Default)]
pub struct FileUploadDtos {
    pub recipient_email: String,
    pub password: String,
    pub expiration_date: String,
}

/// The expiry that a text names, in seconds since the Unix epoch, where it
/// names one that lies after `now`.
pub open spec fn expiry_of(text: Seq<char>, now: i64) -> Option<i64> {
    if text.len() == 0 {
        None
    } else {
        match rfc3339_timestamp(text) {
            Some(t) => if t > now {
                Some(t)
            } else {
                None
            },
            None => None,
        }
    }
}

/// Reads an expiry: the text must not be empty, must be an RFC 3339 date and
/// time, and must name a second after `now`.
pub fn validate_expiration_date(expiration_date: &str, now: i64) -> (r: Result<i64, ServiceError>)
    ensures
        r == match expiry_of(expiration_date@, now) {
            Some(t) => Ok::<i64, ServiceError>(t),
            None => Err::<i64, ServiceError>(ServiceError::Validation(Field::ExpirationDate)),
        },
{
    if expiration_date.is_empty() {
        return Err(ServiceError::Validation(Field::ExpirationDate));
    }
    match parse_rfc3339(expiration_date) {
        Ok(t) => {
            if t > now {
                Ok(t)
            } else {
                Err(ServiceError::Validation(Field::ExpirationDate))
            }
        },
        Err(_) => Err(ServiceError::Validation(Field::ExpirationDate)),
    }
}

impl FileUploadDtos {
    /// The first field that breaks a rule at `now`, if one does: the
    /// recipient's email address must be one, the password is of six
    /// characters or more, and the expiry lies in the future.
    pub open spec fn refusal(&self, now: i64) -> Option<Field> {
        if !is_email(self.recipient_email@) {
            Some(Field::RecipientEmail)
        } else if self.password@.len() < MIN_PASSWORD_LENGTH {
            Some(Field::Password)
        } else if expiry_of(self.expiration_date@, now) is None {
            Some(Field::ExpirationDate)
        } else {
            None
        }
    }

    /// The expiry that the form names, for a form that keeps its rules at
    /// `now`.
    pub open spec fn refusal_free_expiry(&self, now: i64) -> i64 {
        expiry_of(self.expiration_date@, now).unwrap()
    }

    /// Holds the fields to their rules and returns the expiry, in seconds
    /// since the Unix epoch.
    pub fn validate(&self, now: i64) -> (r: Result<i64, ServiceError>)
        ensures
            r == match self.refusal(now) {
                Some(f) => Err::<i64, ServiceError>(ServiceError::Validation(f)),
                None => Ok::<i64, ServiceError>(expiry_of(self.expiration_date@, now).unwrap()),
            },
    {
        if !email_is_valid(self.recipient_email.as_str()) {
            return Err(ServiceError::Validation(Field::RecipientEmail));
        }
        if self.password.as_str().unicode_len() < MIN_PASSWORD_LENGTH {
            return Err(ServiceError::Validation(Field::Password));
        }
        validate_expiration_date(self.expiration_date.as_str(), now)
    }
}

/// The answer to an upload. `share_id` is the reference by which the
/// recipient fetches the file.
#[derive(Debug, Default)]
pub struct UploadFileResponse {
    pub status: i32,
    pub message: String,
    pub share_id: String,
}

} // verus!
