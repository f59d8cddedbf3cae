//! Uploading, retrieving, listing and deleting shared files.
//!
//! Every operation here acts for a caller whose identity was resolved from a
//! bearer token beforehand; a call without one is refused before anything
//! else is looked at.

use vstd::prelude::*;
use crate::crypto::{decrypt_file, decrypt_spec, encrypt_file, encrypted_for};
use crate::db::{
    first_with_email, has_email, has_file, has_link, has_user, link_at, listing, received_by,
    sent_by, shows, Database, Upload,
};
use crate::dtos::{
    DeleteFileQuery, FileUploadDtos, FilteredFile, QueryParams, RetrieveFileDto,
    RetrieveFileResponse, UploadFileResponse,
};
use crate::error::{Field, ServiceError};
use crate::ident::{lemma_parse_hex_round_trip, parse_spec, ObjectId};
use crate::keys::{decode_public_key, read_stored, PrivateKeyStore};
use crate::models::{Share, User};
use crate::password;
use crate::password::refusal;
use crate::seqs::lemma_window_member;
use crate::share;
use crate::share::{grants, map_password_error, password_failure, revoke_spec};

verus! {

/// The status of an answer to an upload that was stored.
pub const STATUS_OK: i32 = 200;

/// Why an upload is refused before anything is drawn at random, if it is.
/// The checks come in this order: the caller must be a known user; the form
/// must keep its rules; the recipient must be a known user, the first with
/// that email address, at place `i`; the recipient's stored public key must be
/// readable; the password must be one that is hashed; and the file's length
/// must fit the record.
pub open spec fn upload_refusal(
    users: Seq<User>,
    user_id: Option<ObjectId>,
    form: FileUploadDtos,
    length: nat,
    now: i64,
    i: int,
) -> Option<ServiceError> {
    match user_id {
        None => Some(ServiceError::Unauthorized),
        Some(uid) => if !has_user(users, uid) {
            Some(ServiceError::Unauthorized)
        } else {
            match form.refusal(now) {
                Some(f) => Some(ServiceError::Validation(f)),
                None => if !has_email(users, form.recipient_email@) {
                    Some(ServiceError::NotFound)
                } else if read_stored(users[i].public_key@) is None {
                    Some(ServiceError::Crypto)
                } else {
                    match refusal(form.password@) {
                        Some(e) => Some(password_failure(e)),
                        None => if length > i64::MAX {
                            Some(ServiceError::Validation(Field::File))
                        } else {
                            None
                        },
                    }
                },
            }
        },
    }
}

/// Whether `after` is `before` and one more entry, made at `now`: the file
/// `file_name` of `owner`, holding `file_data` encrypted under a symmetric
/// key and that key wrapped under the public key `public_pem`, and its share
/// link to `recipient`, which expires at `expiry` and which `password` opens;
/// and whether `response` names that share link.
pub open spec fn uploaded(
    before: Seq<Share>,
    after: Seq<Share>,
    response: UploadFileResponse,
    owner: ObjectId,
    recipient: ObjectId,
    public_pem: Seq<char>,
    file_name: Seq<char>,
    file_data: Seq<u8>,
    password: Seq<char>,
    expiry: i64,
    now: i64,
) -> bool {
    let s = after.last();
    &&& after.len() == before.len() + 1
    &&& after.drop_last() == before
    &&& response.status == STATUS_OK
    &&& response.share_id@ == s.link._id.hex()
    &&& response.message@ == "File uploaded successfully"@
    &&& !has_link(before, s.link._id)
    &&& !has_file(before, s.file._id)
    &&& s.file.user_id == owner
    &&& s.file.file_name@ == file_name
    &&& s.file.file_size == file_data.len()
    &&& exists|key: Seq<u8>, seed: Seq<u8>| #[trigger]
        encrypted_for(
            file_data,
            public_pem,
            key,
            seed,
            (s.file.encrypted_aes_key@, s.file.encrypted_file@, s.file.iv@),
        )
    &&& s.file.created_at == now
    &&& s.file.updated_at == now
    &&& s.link.file_id == s.file._id
    &&& s.link.reciepents_user_id == recipient
    &&& s.link.expires_at == expiry
    &&& s.link.created_at == now
    &&& grants(s.link, recipient, password)
}

/// Stores a file for one recipient: encrypts it under a fresh symmetric key,
/// wraps that key under the recipient's public key, and creates the share
/// link with it, guarded by the password and the expiry of the form.
///
/// Where `upload_refusal` names a failure, that failure is returned. Where it
/// names none, the keys, the salt and the identities are drawn afresh, and
/// either the share is stored as `uploaded` describes, or the failure is
/// `Crypto` or `Conflict`. A failure leaves the store as it was.
pub fn upload_file(
    db: &mut Database,
    user_id: Option<ObjectId>,
    file_name: String,
    file_data: Vec<u8>,
    form_data: &FileUploadDtos,
    now: i64,
) -> (r: Result<UploadFileResponse, ServiceError>)
    requires
        old(db).wf(),
    ensures
        final(db).wf(),
        final(db).users() == old(db).users(),
        r is Err ==> final(db).shares() == old(db).shares(),
        forall|i: int|
            first_with_email(old(db).users(), form_data.recipient_email@, i) || !has_email(
                old(db).users(),
                form_data.recipient_email@,
            ) ==> match #[trigger] upload_refusal(
                old(db).users(),
                user_id,
                *form_data,
                file_data@.len(),
                now,
                i,
            ) {
                Some(e) => r is Err && r->Err_0 == e,
                None => match r {
                    Ok(response) => uploaded(
                        old(db).shares(),
                        final(db).shares(),
                        response,
                        user_id.unwrap(),
                        old(db).users()[i]._id,
                        read_stored(old(db).users()[i].public_key@).unwrap(),
                        file_name@,
                        file_data@,
                        form_data.password@,
                        form_data.refusal_free_expiry(now),
                        now,
                    ),
                    Err(e) => e == ServiceError::Crypto || e == ServiceError::Conflict,
                },
            },
{
    let uid = match user_id {
        Some(u) => u,
        None => {
            return Err(ServiceError::Unauthorized);
        },
    };
    if db.get_user_by_id(uid).is_err() {
        return Err(ServiceError::Unauthorized);
    }
    let expiry = match form_data.validate(now) {
        Ok(t) => t,
        Err(e) => {
            return Err(e);
        },
    };
    let recipient = match db.get_user(form_data.recipient_email.as_str()) {
        Ok(u) => u,
        Err(_) => {
            return Err(ServiceError::NotFound);
        },
    };
    let recipient_id = recipient._id;
    let ghost place = choose|i: int|
        first_with_email(db.users(), form_data.recipient_email@, i) && *recipient
            == db.users()[i];
    proof {
        assert forall|i: int|
            first_with_email(db.users(), form_data.recipient_email@, i) implies i == place by {
            if i < place {
                assert(db.users()[i].email@ != form_data.recipient_email@);
            } else if place < i {
                assert(db.users()[place].email@ != form_data.recipient_email@);
            }
        }
    }
    let public_pem = match decode_public_key(recipient.public_key.as_str()) {
        Ok(p) => p,
        Err(_) => {
            return Err(ServiceError::Crypto);
        },
    };
    if let Some(e) = password::check_length(form_data.password.as_str()) {
        return Err(map_password_error(e));
    }
    let length: u64 = file_data.len() as u64;
    if length > 0x7fff_ffff_ffff_ffff {
        return Err(ServiceError::Validation(Field::File));
    }
    let file_size: i64 = length as i64;
    let (wrapped, cipher, iv) = match encrypt_file(file_data.as_slice(), public_pem.as_str()) {
        Ok(out) => out,
        Err(_) => {
            return Err(ServiceError::Crypto);
        },
    };
    let ghost sealed = (wrapped@, cipher@, iv@);
    let upload = Upload { file_name, file_size, file_data: cipher, iv, aes_key: wrapped };
    let share_id = match share::create(
        db,
        upload,
        recipient_id,
        form_data.password.as_str(),
        expiry,
        uid,
        now,
    ) {
        Ok(id) => id,
        Err(e) => {
            return Err(e);
        },
    };
    let response = UploadFileResponse {
        status: STATUS_OK,
        message: "File uploaded successfully".to_owned(),
        share_id: share_id.to_hex(),
    };
    proof {
        let s = db.shares().last();
        let (key, seed) = choose|key: Seq<u8>, seed: Seq<u8>| #[trigger]
            encrypted_for(file_data@, public_pem@, key, seed, sealed);
        assert(encrypted_for(
            file_data@,
            public_pem@,
            key,
            seed,
            (s.file.encrypted_aes_key@, s.file.encrypted_file@, s.file.iv@),
        ));
        assert(uploaded(
            old(db).shares(),
            db.shares(),
            response,
            uid,
            recipient_id,
            public_pem@,
            file_name@,
            file_data@,
            form_data.password@,
            expiry,
            now,
        ));
    }
    Ok(response)
}

/// What a retrieval by the user `uid` of the entry `share` returns, where
/// `key` is what the private key store holds for the user: the decrypted
/// file; `Unauthorized` where the user is not the recipient or the password
/// is not accepted; `NotFound` where the user has no private key; `Crypto`
/// where the key does not unwrap or the padding does not check.
pub open spec fn open_spec(share: Share, key: Option<Seq<char>>, uid: ObjectId, password: Seq<char>)
    -> Result<Seq<u8>, ServiceError> {
    if !grants(share.link, uid, password) {
        Err(ServiceError::Unauthorized)
    } else {
        match key {
            None => Err(ServiceError::NotFound),
            Some(pem) => match decrypt_spec(
                share.file.encrypted_aes_key@,
                share.file.encrypted_file@,
                share.file.iv@,
                pem,
            ) {
                Ok(plain) => Ok(plain),
                Err(_) => Err(ServiceError::Crypto),
            },
        }
    }
}

/// The view of the outcome of a retrieval.
pub open spec fn retrieved(r: Result<RetrieveFileResponse, ServiceError>) -> Result<
    Seq<u8>,
    ServiceError,
> {
    match r {
        Ok(response) => Ok(response.file@),
        Err(e) => Err(e),
    }
}

/// What a retrieval returns, where `i` is the place of the share link that
/// the request names, if there is one.
pub open spec fn retrieve_spec(
    shares: Seq<Share>,
    held: Option<Seq<char>>,
    user_id: Option<ObjectId>,
    body: RetrieveFileDto,
    i: int,
) -> Result<Seq<u8>, ServiceError> {
    match user_id {
        None => Err(ServiceError::Unauthorized),
        Some(uid) => match parse_spec(body.shared_id@) {
            None => Err(ServiceError::Validation(Field::ShareId)),
            Some(id) => if !has_link(shares, id) {
                Err(ServiceError::NotFound)
            } else {
                open_spec(shares[i], held, uid, body.password@)
            },
        },
    }
}

/// The private key that the store holds for the caller, if there is a caller
/// and the store holds one.
pub open spec fn held_key(keys: PrivateKeyStore, user_id: Option<ObjectId>) -> Option<Seq<char>> {
    match user_id {
        Some(uid) => keys.key(uid),
        None => None,
    }
}

/// Whether `i` is the place of the share link that `shared_id` writes, or
/// there is no such place.
pub open spec fn names_place(shares: Seq<Share>, shared_id: Seq<char>, i: int) -> bool {
    match parse_spec(shared_id) {
        Some(id) => link_at(shares, id, i) || !has_link(shares, id),
        None => true,
    }
}

/// Retrieves a shared file for its recipient: checks the access, and decrypts
/// the file with the caller's private key. Nothing is consumed: the same call
/// on the same store returns the same bytes again.
pub fn retrieve_file(
    db: &Database,
    keys: &PrivateKeyStore,
    user_id: Option<ObjectId>,
    body: &RetrieveFileDto,
) -> (r: Result<RetrieveFileResponse, ServiceError>)
    requires
        db.wf(),
    ensures
        forall|i: int|
            names_place(db.shares(), body.shared_id@, i) ==> retrieved(r) == #[trigger] retrieve_spec(
                db.shares(),
                held_key(*keys, user_id),
                user_id,
                *body,
                i,
            ),
{
    let uid = match user_id {
        Some(u) => u,
        None => {
            return Err(ServiceError::Unauthorized);
        },
    };
    let share_id = match ObjectId::parse_str(body.shared_id.as_str()) {
        Some(id) => id,
        None => {
            return Err(ServiceError::Validation(Field::ShareId));
        },
    };
    let share = match share::validate_access(db, share_id, uid, body.password.as_str()) {
        Ok(s) => s,
        Err(e) => {
            return Err(e);
        },
    };
    let private_key = match keys.load_private_key(uid) {
        Ok(pem) => pem,
        Err(e) => {
            return Err(e);
        },
    };
    let wrapped = share.file.encrypted_aes_key.clone();
    let cipher = share.file.encrypted_file.clone();
    let iv = share.file.iv.clone();
    proof {
        assert(wrapped@ =~= share.file.encrypted_aes_key@);
        assert(cipher@ =~= share.file.encrypted_file@);
        assert(iv@ =~= share.file.iv@);
    }
    match decrypt_file(wrapped, cipher, iv, private_key.as_str()) {
        Ok(file) => Ok(RetrieveFileResponse { file }),
        Err(_) => Err(ServiceError::Crypto),
    }
}

/// The user whose email address a listing shows beside an entry: the
/// recipient in a listing of what was sent, the uploader in a listing of what
/// was received.
pub open spec fn counterpart(s: Share, sent: bool) -> ObjectId {
    if sent {
        s.link.reciepents_user_id
    } else {
        s.file.user_id
    }
}

/// Whether `f` is what a listing shows of the entry `s`.
pub open spec fn summarizes(f: FilteredFile, s: Share, users: Seq<User>, sent: bool) -> bool {
    &&& f.id@ == s.file._id.hex()
    &&& f.name@ == s.file.file_name@
    &&& f.size == s.file.file_size
    &&& f.shared_at == s.file.created_at
    &&& f.share_id is Some
    &&& f.share_id->0@ == s.link._id.hex()
    &&& exists|j: int|
        0 <= j < users.len() && (#[trigger] users[j])._id == counterpart(s, sent)
            && f.recipients_email@ == users[j].email@
}

/// What a listing returns for the pages' entries `page`: a summary of each,
/// or `NotFound` where the user beside one of them is not in the store.
pub open spec fn lists(
    r: Result<Vec<FilteredFile>, ServiceError>,
    page: Seq<Share>,
    users: Seq<User>,
    sent: bool,
) -> bool {
    match r {
        Ok(v) => v@.len() == page.len() && forall|k: int|
            0 <= k < page.len() ==> summarizes(#[trigger] v@[k], page[k], users, sent),
        Err(e) => e == ServiceError::NotFound && exists|k: int|
            0 <= k < page.len() && !has_user(users, counterpart(#[trigger] page[k], sent)),
    }
}

/// Why a listing is refused, if it is: there is no caller, or the page is
/// negative or zero.
pub open spec fn list_refusal(user_id: Option<ObjectId>, query: QueryParams) -> Option<
    ServiceError,
> {
    if user_id is None {
        Some(ServiceError::Unauthorized)
    } else {
        match query.page_spec() {
            None => Some(ServiceError::Validation(Field::Page)),
            Some(p) => if p == 0 {
                Some(ServiceError::Validation(Field::Page))
            } else {
                None
            },
        }
    }
}

/// Lists one page of the files that the caller has uploaded, oldest first,
/// each with its share link's identity and its recipient's email address.
pub fn get_user_files(db: &Database, user_id: Option<ObjectId>, query: &QueryParams) -> (r:
    Result<Vec<FilteredFile>, ServiceError>)
    requires
        db.wf(),
    ensures
        match list_refusal(user_id, *query) {
            Some(e) => r is Err && r->Err_0 == e,
            None => lists(
                r,
                listing(
                    db.shares(),
                    sent_by(user_id.unwrap()),
                    query.page_spec().unwrap(),
                    query.limit_spec(),
                ),
                db.users(),
                true,
            ),
        },
{
    let uid = match user_id {
        Some(u) => u,
        None => {
            return Err(ServiceError::Unauthorized);
        },
    };
    let page = match query.page() {
        Ok(p) => p,
        Err(e) => {
            return Err(e);
        },
    };
    let limit = query.page_limit();
    let caller = uid.to_hex();
    proof {
        lemma_parse_hex_round_trip(uid);
    }
    let files = match db.get_sent_files(caller.as_str(), page, limit) {
        Ok(v) => v,
        Err(e) => {
            return Err(e);
        },
    };
    let ghost shown = listing(db.shares(), sent_by(uid), page, limit);
    let mut out: Vec<FilteredFile> = Vec::new();
    let mut k: usize = 0;
    while k < files.len()
        invariant
            db.wf(),
            k <= files@.len(),
            user_id == Some(uid),
            query.page_spec() == Some(page),
            query.limit_spec() == limit,
            page >= 1,
            shown == listing(db.shares(), sent_by(uid), page, limit),
            shows(files@, shown),
            out@.len() == k,
            forall|n: int| 0 <= n < k ==> summarizes(#[trigger] out@[n], shown[n], db.users(), true),
        decreases files@.len() - k,
    {
        let file = files[k].0;
        let share_hex = files[k].1.clone();
        let file_hex = file._id.to_hex();
        proof {
            lemma_parse_hex_round_trip(file._id);
            lemma_window_member(
                db.shares(),
                sent_by(uid),
                ((page - 1) * limit) as nat,
                limit as nat,
                k as int,
            );
        }
        let ghost m = choose|m: int|
            0 <= m < db.shares().len() && #[trigger] db.shares()[m] == shown[k as int];
        match db.get_recipients_email_by_file_id(file_hex.as_str()) {
            Ok(user) => {
                proof {
                    let (i, j) = choose|i: int, j: int|
                        0 <= i < db.shares().len() && (#[trigger] db.shares()[i]).file._id
                            == file._id && 0 <= j < db.users().len() && *user == (
                        #[trigger] db.users()[j]) && user._id
                            == db.shares()[i].link.reciepents_user_id;
                    assert(i == m) by {
                        if i < m {
                            assert(db.shares()[i].file._id != db.shares()[m].file._id);
                        } else if m < i {
                            assert(db.shares()[m].file._id != db.shares()[i].file._id);
                        }
                    }
                    assert(db.users()[j]._id == counterpart(shown[k as int], true));
                }
                let summary = FilteredFile::filter_file(file, user.email.clone(), Some(share_hex));
                out.push(summary);
            },
            Err(_) => {
                proof {
                    assert(db.shares()[m].file._id == file._id);
                    assert(!has_user(db.users(), counterpart(shown[k as int], true)));
                    assert(lists(Err(ServiceError::NotFound), shown, db.users(), true));
                }
                return Err(ServiceError::NotFound);
            },
        }
        k += 1;
    }
    Ok(out)
}

/// Lists one page of the files that are addressed to the caller, oldest
/// first, each with its share link's identity and its uploader's email
/// address.
pub fn get_recieve_files(db: &Database, user_id: Option<ObjectId>, query: &QueryParams) -> (r:
    Result<Vec<FilteredFile>, ServiceError>)
    requires
        db.wf(),
    ensures
        match list_refusal(user_id, *query) {
            Some(e) => r is Err && r->Err_0 == e,
            None => lists(
                r,
                listing(
                    db.shares(),
                    received_by(user_id.unwrap()),
                    query.page_spec().unwrap(),
                    query.limit_spec(),
                ),
                db.users(),
                false,
            ),
        },
{
    let uid = match user_id {
        Some(u) => u,
        None => {
            return Err(ServiceError::Unauthorized);
        },
    };
    let page = match query.page() {
        Ok(p) => p,
        Err(e) => {
            return Err(e);
        },
    };
    let limit = query.page_limit();
    let caller = uid.to_hex();
    proof {
        lemma_parse_hex_round_trip(uid);
    }
    let files = match db.get_recieve_files(caller.as_str(), page, limit) {
        Ok(v) => v,
        Err(e) => {
            return Err(e);
        },
    };
    let ghost shown = listing(db.shares(), received_by(uid), page, limit);
    let mut out: Vec<FilteredFile> = Vec::new();
    let mut k: usize = 0;
    while k < files.len()
        invariant
            k <= files@.len(),
            user_id == Some(uid),
            query.page_spec() == Some(page),
            query.limit_spec() == limit,
            page >= 1,
            shown == listing(db.shares(), received_by(uid), page, limit),
            shows(files@, shown),
            out@.len() == k,
            forall|n: int|
                0 <= n < k ==> summarizes(#[trigger] out@[n], shown[n], db.users(), false),
        decreases files@.len() - k,
    {
        let file = files[k].0;
        let share_hex = files[k].1.clone();
        match db.get_user_by_id(file.user_id) {
            Ok(user) => {
                let summary = FilteredFile::filter_file(file, user.email.clone(), Some(share_hex));
                out.push(summary);
            },
            Err(_) => {
                proof {
                    assert(!has_user(db.users(), counterpart(shown[k as int], false)));
                    assert(lists(Err(ServiceError::NotFound), shown, db.users(), false));
                }
                return Err(ServiceError::NotFound);
            },
        }
        k += 1;
    }
    Ok(out)
}

/// Deletes a share link and its file for the caller who uploaded the file.
/// A call without a caller is refused; beyond that this is `share::revoke`.
pub fn delete_file(db: &mut Database, user_id: Option<ObjectId>, query: &DeleteFileQuery) -> (r:
    Result<(), ServiceError>)
    requires
        old(db).wf(),
    ensures
        final(db).wf(),
        final(db).users() == old(db).users(),
        r is Err ==> final(db).shares() == old(db).shares(),
        match user_id {
            None => r == Err::<(), ServiceError>(ServiceError::Unauthorized),
            Some(caller) => match parse_spec(query.share_id@) {
                None => r == Err::<(), ServiceError>(ServiceError::Validation(Field::ShareId)),
                Some(id) => {
                    &&& !has_link(old(db).shares(), id) ==> r == Err::<(), ServiceError>(
                        ServiceError::NotFound,
                    )
                    &&& forall|i: int|
                        link_at(old(db).shares(), id, i) ==> match revoke_spec(
                            old(db).shares(),
                            caller,
                            i,
                        ) {
                            Ok(left) => r is Ok && final(db).shares() == left,
                            Err(e) => r == Err::<(), ServiceError>(e),
                        }
                },
            },
        },
{
    let caller = match user_id {
        Some(u) => u,
        None => {
            return Err(ServiceError::Unauthorized);
        },
    };
    share::revoke(db, query.share_id.as_str(), caller)
}

} // verus!
