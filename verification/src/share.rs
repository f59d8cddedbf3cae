//! Share links: their creation, the check of an access, and their revocation.
//!
//! The expiry of a share link is not looked at when an access is checked: a
//! link stays usable until a sweep of the store removes it.

use vstd::prelude::*;
use crate::db::{
    has_file, has_link, link_at, new_share, share_added, Database, Upload, UploadView,
};
use crate::error::{Field, PasswordError, ServiceError};
use crate::ident::{fresh_id, parse_spec, ObjectId};
use crate::models::{Share, ShareLink};
use crate::password;
use crate::password::{matches_hash, refusal};

verus! {

/// Whether the user `requester` may open `link` with `password`: only the
/// recipient may, and only with a password that the stored hash accepts.
pub open spec fn grants(link: ShareLink, requester: ObjectId, password: Seq<char>) -> bool {
    link.reciepents_user_id == requester && matches_hash(password, link.password@)
}

/// What a check of an access to the share link `share_id` returns: the place
/// of the entry it grants, `NotFound` where there is no such link, and
/// `Unauthorized` where the requester is not the recipient or the password is
/// not accepted, the two not told apart.
pub open spec fn access_spec(
    shares: Seq<Share>,
    share_id: ObjectId,
    requester: ObjectId,
    password: Seq<char>,
    i: int,
) -> Result<int, ServiceError> {
    if !has_link(shares, share_id) {
        Err(ServiceError::NotFound)
    } else if grants(shares[i].link, requester, password) {
        Ok(i)
    } else {
        Err(ServiceError::Unauthorized)
    }
}

/// Checks an access to the share link `share_id` by the user
/// `requesting_identity` with `supplied_password`, and returns the entry that
/// it grants.
pub fn validate_access<'a>(
    db: &'a Database,
    share_id: ObjectId,
    requesting_identity: ObjectId,
    supplied_password: &str,
) -> (r: Result<&'a Share, ServiceError>)
    requires
        db.wf(),
    ensures
        !has_link(db.shares(), share_id) ==> r is Err && r->Err_0 == ServiceError::NotFound,
        forall|i: int|
            link_at(db.shares(), share_id, i) ==> match access_spec(
                db.shares(),
                share_id,
                requesting_identity,
                supplied_password@,
                i,
            ) {
                Ok(_) => r is Ok && *r->Ok_0 == db.shares()[i],
                Err(e) => r is Err && r->Err_0 == e,
            },
{
    let share = match db.find_share(share_id) {
        Ok(s) => s,
        Err(e) => {
            return Err(e);
        },
    };
    if share.link.reciepents_user_id != requesting_identity {
        return Err(ServiceError::Unauthorized);
    }
    match password::compare(supplied_password, share.link.password.as_str()) {
        Ok(true) => Ok(share),
        _ => Err(ServiceError::Unauthorized),
    }
}

/// The failure of a share's creation that a refused password stands for.
pub open spec fn password_failure(e: PasswordError) -> ServiceError {
    match e {
        PasswordError::Empty => ServiceError::Validation(Field::Password),
        PasswordError::TooLong => ServiceError::Validation(Field::Password),
        PasswordError::Hashing => ServiceError::Crypto,
        PasswordError::InvalidHash => ServiceError::Crypto,
    }
}

/// The failure that a refused password stands for.
pub fn map_password_error(e: PasswordError) -> (r: ServiceError)
    ensures
        r == password_failure(e),
{
    match e {
        PasswordError::Empty => ServiceError::Validation(Field::Password),
        PasswordError::TooLong => ServiceError::Validation(Field::Password),
        PasswordError::Hashing => ServiceError::Crypto,
        PasswordError::InvalidHash => ServiceError::Crypto,
    }
}

/// Whether `after` is `before` and one more entry: the file of `upload`, owned
/// by `owner`, with a share link `share_id` to `recipient` that expires at
/// `expiry` and that `password` opens.
pub open spec fn share_created(
    before: Seq<Share>,
    after: Seq<Share>,
    share_id: ObjectId,
    upload: UploadView,
    recipient: ObjectId,
    password: Seq<char>,
    expiry: i64,
    owner: ObjectId,
    now: i64,
) -> bool {
    &&& !has_link(before, share_id)
    &&& !has_file(before, after.last().file._id)
    &&& share_added(
        before,
        after,
        new_share(
            after.last().file._id,
            share_id,
            upload,
            recipient,
            owner,
            after.last().link.password@,
            expiry,
            now,
        ),
    )
    &&& grants(after.last().link, recipient, password)
}

/// What `create_with` returns and leaves of the store: a password that is not
/// taken is refused as invalid input, a salt that the hashing refuses is a
/// cryptographic failure, and an identity that is in use is a conflict; all
/// else stores the share.
pub open spec fn create_failure(
    before: Seq<Share>,
    password: Seq<char>,
    salt: Seq<char>,
    file_id: ObjectId,
    share_id: ObjectId,
) -> Option<ServiceError> {
    match password::hash_spec(password, salt) {
        Err(e) => Some(password_failure(e)),
        Ok(_) => if has_file(before, file_id) || has_link(before, share_id) {
            Some(ServiceError::Conflict)
        } else {
            None
        },
    }
}

/// Creates the share link of an uploaded file together with the file's
/// record, under the salt and the identities given. The password is kept as
/// its hash under that salt only. Fails, and changes nothing, exactly where
/// `create_failure` names a failure.
pub fn create_with(
    db: &mut Database,
    upload: Upload,
    recipient: ObjectId,
    plaintext_password: &str,
    salt: &str,
    file_id: ObjectId,
    share_id: ObjectId,
    expiry: i64,
    owner: ObjectId,
    now: i64,
) -> (r: Result<ObjectId, ServiceError>)
    requires
        old(db).wf(),
    ensures
        final(db).wf(),
        final(db).users() == old(db).users(),
        match create_failure(old(db).shares(), plaintext_password@, salt@, file_id, share_id) {
            Some(e) => r == Err::<ObjectId, ServiceError>(e) && final(db).shares() == old(
                db,
            ).shares(),
            None => r == Ok::<ObjectId, ServiceError>(share_id) && final(db).shares().last().file._id == file_id && final(db).shares().last().link.password@
                == password::hash_spec(plaintext_password@, salt@)->Ok_0 && share_created(
                old(db).shares(),
                final(db).shares(),
                share_id,
                upload@,
                recipient,
                plaintext_password@,
                expiry,
                owner,
                now,
            ),
        },
{
    let hashed = match password::hash_with_salt(plaintext_password, salt) {
        Ok(h) => h,
        Err(e) => {
            return Err(map_password_error(e));
        },
    };
    db.save_file_with_ids(file_id, share_id, upload, recipient, owner, hashed, expiry, now)
}

/// Creates the share link of an uploaded file together with the file's
/// record, and returns the link's identity. The password is hashed under a
/// fresh salt and kept as its hash only.
///
/// An empty password, and one of more than 64 bytes, is refused as invalid
/// input. Salt and identities are fresh: where the password is taken, either
/// the share is stored as described, or nothing changes and the failure is
/// `Crypto` or `Conflict`.
pub fn create(
    db: &mut Database,
    upload: Upload,
    recipient: ObjectId,
    plaintext_password: &str,
    expiry: i64,
    owner: ObjectId,
    now: i64,
) -> (r: Result<ObjectId, ServiceError>)
    requires
        old(db).wf(),
    ensures
        final(db).wf(),
        final(db).users() == old(db).users(),
        refusal(plaintext_password@) is Some ==> r == Err::<ObjectId, ServiceError>(
            ServiceError::Validation(Field::Password),
        ),
        match r {
            Ok(share_id) => refusal(plaintext_password@) is None && share_created(
                old(db).shares(),
                final(db).shares(),
                share_id,
                upload@,
                recipient,
                plaintext_password@,
                expiry,
                owner,
                now,
            ),
            Err(e) => final(db).shares() == old(db).shares() && (refusal(plaintext_password@)
                is None ==> e == ServiceError::Crypto || e == ServiceError::Conflict),
        },
{
    if let Some(e) = password::check_length(plaintext_password) {
        return Err(map_password_error(e));
    }
    let salt = password::fresh_salt();
    let file_id = fresh_id();
    let share_id = fresh_id();
    create_with(
        db,
        upload,
        recipient,
        plaintext_password,
        salt.as_str(),
        file_id,
        share_id,
        expiry,
        owner,
        now,
    )
}

/// What a revocation by `caller` of the share link at place `i` of `shares`
/// leaves of the store: the uploader of the file removes the entry, and
/// every other caller is refused as `Forbidden`.
pub open spec fn revoke_spec(shares: Seq<Share>, caller: ObjectId, i: int) -> Result<
    Seq<Share>,
    ServiceError,
> {
    if shares[i].file.user_id == caller {
        Ok(shares.remove(i))
    } else {
        Err(ServiceError::Forbidden)
    }
}

/// Revokes the share link whose identity `share_id` writes, and deletes the
/// file with it, where `caller_identity` is the uploader of the file. The
/// recipient cannot revoke.
pub fn revoke(db: &mut Database, share_id: &str, caller_identity: ObjectId) -> (r: Result<
    (),
    ServiceError,
>)
    requires
        old(db).wf(),
    ensures
        final(db).wf(),
        final(db).users() == old(db).users(),
        r is Err ==> final(db).shares() == old(db).shares(),
        match parse_spec(share_id@) {
            None => r == Err::<(), ServiceError>(ServiceError::Validation(Field::ShareId)),
            Some(id) => {
                &&& !has_link(old(db).shares(), id) ==> r == Err::<(), ServiceError>(
                    ServiceError::NotFound,
                )
                &&& forall|i: int|
                    link_at(old(db).shares(), id, i) ==> match revoke_spec(
                        old(db).shares(),
                        caller_identity,
                        i,
                    ) {
                        Ok(left) => r is Ok && final(db).shares() == left,
                        Err(e) => r == Err::<(), ServiceError>(e),
                    }
            },
        },
{
    let owner = match db.get_share_link_doc(share_id) {
        Ok(file) => file.user_id,
        Err(e) => {
            return Err(e);
        },
    };
    if owner != caller_identity {
        return Err(ServiceError::Forbidden);
    }
    match db.delete_file_by_share_id(share_id) {
        Ok(_) => Ok(()),
        Err(e) => Err(e),
    }
}

} // verus!
