//! The storage model: users, and files paired with their share links.
//!
//! A file and its share link enter the store together and leave it together,
//! so the store keeps them as one entry. Identities are unique within each
//! kind of record.

use vstd::prelude::*;
use crate::error::{Field, ServiceError};
use crate::ident::{parse_spec, ObjectId};
use crate::models::{
    File, FileView, Share, ShareLink, ShareLinkView, ShareView, User, UserView,
};
use crate::ident::fresh_id;
use crate::seqs::{lemma_filter_empty, lemma_filter_take_step, lemma_window_push, window};
use crate::text::{contains_folded, contains_ignore_ascii_case};

verus! {

/// Whether a user of `users` has the identity `id`.
pub open spec fn has_user(users: Seq<User>, id: ObjectId) -> bool {
    exists|i: int| 0 <= i < users.len() && (#[trigger] users[i])._id == id
}

/// Whether a user of `users` has the email address `email`.
pub open spec fn has_email(users: Seq<User>, email: Seq<char>) -> bool {
    exists|i: int| 0 <= i < users.len() && (#[trigger] users[i]).email@ == email
}

/// Whether `i` is the place of the first user with the email address `email`.
pub open spec fn first_with_email(users: Seq<User>, email: Seq<char>, i: int) -> bool {
    &&& 0 <= i < users.len()
    &&& users[i].email@ == email
    &&& forall|j: int| 0 <= j < i ==> (#[trigger] users[j]).email@ != email
}

/// Whether a file of `shares` has the identity `id`.
pub open spec fn has_file(shares: Seq<Share>, id: ObjectId) -> bool {
    exists|i: int| 0 <= i < shares.len() && (#[trigger] shares[i]).file._id == id
}

/// Whether a share link of `shares` has the identity `id`.
pub open spec fn has_link(shares: Seq<Share>, id: ObjectId) -> bool {
    exists|i: int| 0 <= i < shares.len() && (#[trigger] shares[i]).link._id == id
}

/// Whether `i` is the place of the share link with the identity `id`.
pub open spec fn link_at(shares: Seq<Share>, id: ObjectId, i: int) -> bool {
    0 <= i < shares.len() && shares[i].link._id == id
}

/// Picks the shares whose file the user `uid` uploaded.
pub open spec fn sent_by(uid: ObjectId) -> spec_fn(Share) -> bool {
    |s: Share| s.file.user_id == uid
}

/// Picks the shares that are addressed to the user `uid`.
pub open spec fn received_by(uid: ObjectId) -> spec_fn(Share) -> bool {
    |s: Share| s.link.reciepents_user_id == uid
}

/// Picks the shares that expire after `now`.
pub open spec fn unexpired_at(now: i64) -> spec_fn(Share) -> bool {
    |s: Share| s.link.expires_at > now
}

/// Page `page` of the picked shares, `limit` to a page, pages counted from one.
pub open spec fn listing(
    shares: Seq<Share>,
    pick: spec_fn(Share) -> bool,
    page: u32,
    limit: usize,
) -> Seq<Share> {
    window(shares.filter(pick), ((page - 1) * limit) as nat, limit as nat)
}

/// Whether `out` shows `shown`: each file with the hexadecimal identity of its
/// share link, in the same order.
pub open spec fn shows<'a>(out: Seq<(&'a File, String)>, shown: Seq<Share>) -> bool {
    &&& out.len() == shown.len()
    &&& forall|k: int|
        0 <= k < out.len() ==> *(#[trigger] out[k]).0 == shown[k].file && out[k].1@
            == shown[k].link._id.hex()
}

/// Why a listing is refused, if it is: the user's identity is read first.
pub open spec fn listing_refusal(user_id: Seq<char>, page: u32) -> Option<ServiceError> {
    if parse_spec(user_id) is None {
        Some(ServiceError::Validation(Field::UserId))
    } else if page == 0 {
        Some(ServiceError::Validation(Field::Page))
    } else {
        None
    }
}

/// Picks the users whose email address holds `text`, compared byte for byte
/// with the ASCII letters folded.
pub open spec fn email_holds(text: Seq<char>) -> spec_fn(User) -> bool {
    |u: User| contains_folded(vstd::utf8::encode_utf8(u.email@), vstd::utf8::encode_utf8(text))
}

/// The record of a user who was just added: made of the values given, with
/// no public key yet.
pub open spec fn new_user(
    id: ObjectId,
    name: Seq<char>,
    email: Seq<char>,
    password: Seq<char>,
    now: i64,
) -> UserView {
    UserView {
        _id: id,
        username: name,
        email,
        password,
        public_key: Seq::empty(),
        created_at: now,
        updated_at: now,
    }
}

/// Whether `after` is `before` and the one more user `added`.
pub open spec fn user_added(before: Seq<User>, after: Seq<User>, added: UserView) -> bool {
    &&& after.len() == before.len() + 1
    &&& after.drop_last() == before
    &&& after.last()@ == added
}

/// What is stored with a file.
pub struct Upload {
    pub file_name: String,
    pub file_size: i64,
    pub file_data: Vec<u8>,
    pub iv: Vec<u8>,
    pub aes_key: Vec<u8>,
}

/// What is stored with a file, as a value.
pub struct UploadView {
    pub file_name: Seq<char>,
    pub file_size: i64,
    pub file_data: Seq<u8>,
    pub iv: Seq<u8>,
    pub aes_key: Seq<u8>,
}

impl View for Upload {
    type V = UploadView;

    open spec fn view(&self) -> UploadView {
        UploadView {
            file_name: self.file_name@,
            file_size: self.file_size,
            file_data: self.file_data@,
            iv: self.iv@,
            aes_key: self.aes_key@,
        }
    }
}

/// The entry that was just stored: the file of `upload`, owned by `user_id`,
/// and its share link to `recipient`, both made at `now`.
pub open spec fn new_share(
    file_id: ObjectId,
    share_id: ObjectId,
    upload: UploadView,
    recipient: ObjectId,
    user_id: ObjectId,
    password: Seq<char>,
    expiration_date: i64,
    now: i64,
) -> ShareView {
    ShareView {
        file: FileView {
            _id: file_id,
            user_id,
            file_name: upload.file_name,
            file_size: upload.file_size,
            encrypted_aes_key: upload.aes_key,
            encrypted_file: upload.file_data,
            iv: upload.iv,
            created_at: now,
            updated_at: now,
        },
        link: ShareLinkView {
            _id: share_id,
            reciepents_user_id: recipient,
            file_id,
            password,
            expires_at: expiration_date,
            created_at: now,
        },
    }
}

/// Whether `after` is `before` and the one more entry `added`.
pub open spec fn share_added(before: Seq<Share>, after: Seq<Share>, added: ShareView) -> bool {
    &&& after.len() == before.len() + 1
    &&& after.drop_last() == before
    &&& after.last()@ == added
}

/// How many records one sweep removed.
#[derive(Clone, Copy, Debug, PartialEq, Eq, Structural)]
pub struct SweepReport {
    pub share_links: usize,
    pub files: usize,
}

/// Users, and files with their share links, in the order of their creation.
pub struct Database {
    users: Vec<User>,
    shares: Vec<Share>,
}

impl Database {
    /// The users, oldest first.
    pub closed spec fn users(&self) -> Seq<User> {
        self.users@
    }

    /// The files with their share links, oldest first.
    pub closed spec fn shares(&self) -> Seq<Share> {
        self.shares@
    }

    /// No two users, no two files and no two share links have one identity,
    /// and every share link names the file it is stored with.
    pub open spec fn wf(&self) -> bool {
        &&& forall|i: int, j: int|
            0 <= i < j < self.users().len() ==> (#[trigger] self.users()[i])._id != (
            #[trigger] self.users()[j])._id
        &&& forall|i: int, j: int|
            0 <= i < j < self.shares().len() ==> (#[trigger] self.shares()[i]).file._id != (
            #[trigger] self.shares()[j]).file._id
        &&& forall|i: int, j: int|
            0 <= i < j < self.shares().len() ==> (#[trigger] self.shares()[i]).link._id != (
            #[trigger] self.shares()[j]).link._id
        &&& forall|i: int|
            0 <= i < self.shares().len() ==> (#[trigger] self.shares()[i]).link.file_id
                == self.shares()[i].file._id
    }

    /// An empty store.
    pub fn init() -> (db: Database)
        ensures
            db.wf(),
            db.users().len() == 0,
            db.shares().len() == 0,
    {
        Database { users: Vec::new(), shares: Vec::new() }
    }

    /// Adds a user under the identity `id`, with no public key yet. Fails with
    /// `Conflict`, and changes nothing, exactly where the identity is in use.
    pub fn create_user_with_id(
        &mut self,
        id: ObjectId,
        name: String,
        email: String,
        password: String,
        now: i64,
    ) -> (r: Result<ObjectId, ServiceError>)
        requires
            old(self).wf(),
        ensures
            final(self).wf(),
            final(self).shares() == old(self).shares(),
            has_user(old(self).users(), id) ==> r == Err::<ObjectId, ServiceError>(
                ServiceError::Conflict,
            ) && final(self).users() == old(self).users(),
            !has_user(old(self).users(), id) ==> r == Ok::<ObjectId, ServiceError>(id)
                && user_added(
                old(self).users(),
                final(self).users(),
                new_user(id, name@, email@, password@, now),
            ),
    {
        if self.user_index(id).is_some() {
            return Err(ServiceError::Conflict);
        }
        let user = User {
            _id: id,
            username: name,
            email,
            password,
            public_key: String::new(),
            created_at: now,
            updated_at: now,
        };
        self.users.push(user);
        proof {
            assert(self.shares() == old(self).shares());
            assert(self.users@.drop_last() =~= old(self).users@);
            assert forall|i: int, j: int| 0 <= i < j < self.users@.len() implies (
            #[trigger] self.users@[i])._id != (#[trigger] self.users@[j])._id by {
                assert(self.users@[i] == old(self).users@[i]);
                if j < old(self).users@.len() {
                    assert(self.users@[j] == old(self).users@[j]);
                }
            }
        }
        Ok(id)
    }

    /// The place of the user with the identity `id`, if there is one.
    fn user_index(&self, id: ObjectId) -> (r: Option<usize>)
        ensures
            match r {
                Some(i) => i < self.users().len() && self.users()[i as int]._id == id,
                None => !has_user(self.users(), id),
            },
    {
        let mut i: usize = 0;
        while i < self.users.len()
            invariant
                i <= self.users@.len(),
                forall|k: int| 0 <= k < i ==> (#[trigger] self.users@[k])._id != id,
            decreases self.users@.len() - i,
        {
            if self.users[i]._id == id {
                return Some(i);
            }
            i += 1;
        }
        None
    }

    /// The first user with the email address `email`.
    pub fn get_user(&self, email: &str) -> (r: Result<&User, ServiceError>)
        ensures
            match r {
                Ok(u) => exists|i: int|
                    first_with_email(self.users(), email@, i) && *u == self.users()[i],
                Err(e) => e == ServiceError::NotFound && !has_email(self.users(), email@),
            },
    {
        let wanted = email.to_owned();
        let mut i: usize = 0;
        while i < self.users.len()
            invariant
                i <= self.users@.len(),
                wanted@ == email@,
                forall|k: int| 0 <= k < i ==> (#[trigger] self.users@[k]).email@ != email@,
            decreases self.users@.len() - i,
        {
            if self.users[i].email == wanted {
                assert(first_with_email(self.users(), email@, i as int));
                return Ok(&self.users[i]);
            }
            i += 1;
        }
        Err(ServiceError::NotFound)
    }

    /// The user with the identity `id`.
    pub fn get_user_by_id(&self, id: ObjectId) -> (r: Result<&User, ServiceError>)
        ensures
            match r {
                Ok(u) => u._id == id && exists|i: int|
                    0 <= i < self.users().len() && *u == #[trigger] self.users()[i],
                Err(e) => e == ServiceError::NotFound && !has_user(self.users(), id),
            },
    {
        match self.user_index(id) {
            Some(i) => Ok(&self.users[i]),
            None => Err(ServiceError::NotFound),
        }
    }

    /// Replaces the public key of the user with the identity `id`; tells
    /// whether there is such a user. Nothing else changes.
    pub fn update_public_key(&mut self, id: ObjectId, public_key: String) -> (matched: bool)
        requires
            old(self).wf(),
        ensures
            final(self).wf(),
            final(self).shares() == old(self).shares(),
            matched == has_user(old(self).users(), id),
            final(self).users().len() == old(self).users().len(),
            forall|i: int|
                0 <= i < old(self).users().len() ==> {
                    let before = #[trigger] old(self).users()[i];
                    final(self).users()[i]@ == (UserView {
                        public_key: if before._id == id {
                            public_key@
                        } else {
                            before.public_key@
                        },
                        ..before@
                    })
                },
    {
        match self.user_index(id) {
            Some(i) => {
                self.users[i].public_key = public_key;
                proof {
                    assert(self.shares() == old(self).shares());
                    assert forall|a: int, b: int| 0 <= a < b < self.users@.len() implies (
                    #[trigger] self.users@[a])._id != (#[trigger] self.users@[b])._id by {
                        assert(self.users@[a]._id == old(self).users@[a]._id);
                        assert(self.users@[b]._id == old(self).users@[b]._id);
                    }
                }
                true
            },
            None => false,
        }
    }
    /// Adds a user under a fresh identity, with no public key yet. The
    /// identity is not known beforehand: either it was free and the user is
    /// added, or it was in use, nothing changes and `Conflict` is returned.
    pub fn create_user(&mut self, name: String, email: String, password: String, now: i64) -> (r:
        Result<ObjectId, ServiceError>)
        requires
            old(self).wf(),
        ensures
            final(self).wf(),
            final(self).shares() == old(self).shares(),
            match r {
                Ok(id) => !has_user(old(self).users(), id) && user_added(
                    old(self).users(),
                    final(self).users(),
                    new_user(id, name@, email@, password@, now),
                ),
                Err(e) => e == ServiceError::Conflict && final(self).users() == old(self).users(),
            },
    {
        let id = fresh_id();
        self.create_user_with_id(id, name, email, password, now)
    }

    /// The users whose email address holds `email_text`, compared byte for
    /// byte with the ASCII letters folded, oldest first.
    pub fn search_user(&self, email_text: &str) -> (r: Result<Vec<&User>, ServiceError>)
        ensures
            match r {
                Ok(v) => {
                    let found = self.users().filter(email_holds(email_text@));
                    &&& v@.len() == found.len()
                    &&& forall|k: int| 0 <= k < v@.len() ==> *(#[trigger] v@[k]) == found[k]
                },
                Err(_) => false,
            },
    {
        let ghost pick = email_holds(email_text@);
        let needle = email_text.as_bytes();
        let mut out: Vec<&User> = Vec::new();
        let mut i: usize = 0;
        proof {
            lemma_filter_empty::<User>(pick);
            assert(self.users@.take(0) =~= Seq::<User>::empty());
        }
        while i < self.users.len()
            invariant
                i <= self.users@.len(),
                pick == email_holds(email_text@),
                needle@ == vstd::utf8::encode_utf8(email_text@),
                out@.len() == self.users@.take(i as int).filter(pick).len(),
                forall|k: int|
                    0 <= k < out@.len() ==> *(#[trigger] out@[k]) == self.users@.take(
                        i as int,
                    ).filter(pick)[k],
            decreases self.users@.len() - i,
        {
            let user = &self.users[i];
            proof {
                lemma_filter_take_step(self.users@, i as int, pick);
            }
            if contains_ignore_ascii_case(user.email.as_str().as_bytes(), needle) {
                out.push(user);
            }
            i += 1;
        }
        proof {
            assert(self.users@.take(self.users@.len() as int) =~= self.users@);
        }
        Ok(out)
    }

    /// The place of the share link with the identity `id`, if there is one.
    fn link_index(&self, id: ObjectId) -> (r: Option<usize>)
        ensures
            match r {
                Some(i) => link_at(self.shares(), id, i as int),
                None => !has_link(self.shares(), id),
            },
    {
        let mut i: usize = 0;
        while i < self.shares.len()
            invariant
                i <= self.shares@.len(),
                forall|k: int| 0 <= k < i ==> (#[trigger] self.shares@[k]).link._id != id,
            decreases self.shares@.len() - i,
        {
            if self.shares[i].link._id == id {
                return Some(i);
            }
            i += 1;
        }
        None
    }

    /// The place of the file with the identity `id`, if there is one.
    fn file_index(&self, id: ObjectId) -> (r: Option<usize>)
        ensures
            match r {
                Some(i) => i < self.shares().len() && self.shares()[i as int].file._id == id,
                None => !has_file(self.shares(), id),
            },
    {
        let mut i: usize = 0;
        while i < self.shares.len()
            invariant
                i <= self.shares@.len(),
                forall|k: int| 0 <= k < i ==> (#[trigger] self.shares@[k]).file._id != id,
            decreases self.shares@.len() - i,
        {
            if self.shares[i].file._id == id {
                return Some(i);
            }
            i += 1;
        }
        None
    }

    /// Stores a file and its share link as one entry, under the identities
    /// given. Fails with `Conflict`, and changes nothing, exactly where one of
    /// the two identities is in use.
    pub fn save_file_with_ids(
        &mut self,
        file_id: ObjectId,
        share_id: ObjectId,
        upload: Upload,
        reciepient_user_id: ObjectId,
        user_id: ObjectId,
        password: String,
        expiration_date: i64,
        now: i64,
    ) -> (r: Result<ObjectId, ServiceError>)
        requires
            old(self).wf(),
        ensures
            final(self).wf(),
            final(self).users() == old(self).users(),
            has_file(old(self).shares(), file_id) || has_link(old(self).shares(), share_id) ==> r
                == Err::<ObjectId, ServiceError>(ServiceError::Conflict) && final(self).shares()
                == old(self).shares(),
            !has_file(old(self).shares(), file_id) && !has_link(old(self).shares(), share_id)
                ==> r == Ok::<ObjectId, ServiceError>(share_id) && share_added(
                old(self).shares(),
                final(self).shares(),
                new_share(
                    file_id,
                    share_id,
                    upload@,
                    reciepient_user_id,
                    user_id,
                    password@,
                    expiration_date,
                    now,
                ),
            ),
    {
        if self.file_index(file_id).is_some() || self.link_index(share_id).is_some() {
            return Err(ServiceError::Conflict);
        }
        let file = File {
            _id: file_id,
            user_id,
            file_name: upload.file_name,
            file_size: upload.file_size,
            encrypted_aes_key: upload.aes_key,
            encrypted_file: upload.file_data,
            iv: upload.iv,
            created_at: now,
            updated_at: now,
        };
        let link = ShareLink {
            _id: share_id,
            reciepents_user_id: reciepient_user_id,
            file_id,
            password,
            expires_at: expiration_date,
            created_at: now,
        };
        self.shares.push(Share { file, link });
        proof {
            assert(self.users() == old(self).users());
            assert(self.shares@.drop_last() =~= old(self).shares@);
            assert forall|i: int| 0 <= i < self.shares@.len() - 1 implies #[trigger] self.shares@[i]
                == old(self).shares@[i] by {}
        }
        Ok(share_id)
    }

    /// Stores a file and its share link as one entry, under two fresh
    /// identities, and returns that of the share link. The recipient's
    /// identity is read from `reciepient_user_id` before anything is stored.
    /// Fresh identities are not known beforehand: what is stated holds
    /// whichever came.
    pub fn save_file(
        &mut self,
        file_name: String,
        file_size: i64,
        file_data: Vec<u8>,
        iv: Vec<u8>,
        aes_key: Vec<u8>,
        reciepient_user_id: &str,
        user_id: ObjectId,
        password: String,
        expiration_date: i64,
        now: i64,
    ) -> (r: Result<ObjectId, ServiceError>)
        requires
            old(self).wf(),
        ensures
            final(self).wf(),
            final(self).users() == old(self).users(),
            match r {
                Ok(share_id) => parse_spec(reciepient_user_id@) matches Some(recipient)
                    && !has_link(old(self).shares(), share_id) && !has_file(
                    old(self).shares(),
                    final(self).shares().last().file._id,
                ) && share_added(
                    old(self).shares(),
                    final(self).shares(),
                    new_share(
                        final(self).shares().last().file._id,
                        share_id,
                        (UploadView {
                            file_name: file_name@,
                            file_size,
                            file_data: file_data@,
                            iv: iv@,
                            aes_key: aes_key@,
                        }),
                        recipient,
                        user_id,
                        password@,
                        expiration_date,
                        now,
                    ),
                ),
                Err(e) => final(self).shares() == old(self).shares() && (e
                    == ServiceError::Conflict || e == ServiceError::Validation(Field::UserId)),
            },
            parse_spec(reciepient_user_id@) is None <==> r == Err::<ObjectId, ServiceError>(
                ServiceError::Validation(Field::UserId),
            ),
    {
        let recipient = match ObjectId::parse_str(reciepient_user_id) {
            Some(id) => id,
            None => {
                return Err(ServiceError::Validation(Field::UserId));
            },
        };
        let file_id = fresh_id();
        let share_id = fresh_id();
        let upload = Upload { file_name, file_size, file_data, iv, aes_key };
        let r = self.save_file_with_ids(
            file_id,
            share_id,
            upload,
            recipient,
            user_id,
            password,
            expiration_date,
            now,
        );
        r
    }

    /// The share link with the identity `share_id`, where it is addressed to
    /// the user `user_id`.
    pub fn get_shared(&self, share_id: ObjectId, user_id: ObjectId) -> (r: Result<
        &ShareLink,
        ServiceError,
    >)
        ensures
            match r {
                Ok(l) => l.reciepents_user_id == user_id && exists|i: int|
                    link_at(self.shares(), share_id, i) && *l == (#[trigger] self.shares()[i]).link,
                Err(e) => e == ServiceError::NotFound && forall|i: int|
                    link_at(self.shares(), share_id, i) ==> (
                    #[trigger] self.shares()[i]).link.reciepents_user_id != user_id,
            },
    {
        let mut i: usize = 0;
        while i < self.shares.len()
            invariant
                i <= self.shares@.len(),
                forall|k: int|
                    0 <= k < i ==> !((#[trigger] self.shares@[k]).link._id == share_id
                        && self.shares@[k].link.reciepents_user_id == user_id),
            decreases self.shares@.len() - i,
        {
            let link = &self.shares[i].link;
            if link._id == share_id && link.reciepents_user_id == user_id {
                assert(link_at(self.shares(), share_id, i as int));
                return Ok(link);
            }
            i += 1;
        }
        Err(ServiceError::NotFound)
    }

    /// The file and the share link that the identity `share_id` of the link names.
    pub fn find_share(&self, share_id: ObjectId) -> (r: Result<&Share, ServiceError>)
        ensures
            match r {
                Ok(s) => exists|i: int|
                    link_at(self.shares(), share_id, i) && *s == #[trigger] self.shares()[i],
                Err(e) => e == ServiceError::NotFound && !has_link(self.shares(), share_id),
            },
    {
        match self.link_index(share_id) {
            Some(i) => Ok(&self.shares[i]),
            None => Err(ServiceError::NotFound),
        }
    }

    /// The file with the identity `file_id`.
    pub fn get_file(&self, file_id: ObjectId) -> (r: Result<&File, ServiceError>)
        ensures
            match r {
                Ok(f) => f._id == file_id && exists|i: int|
                    0 <= i < self.shares().len() && *f == (#[trigger] self.shares()[i]).file,
                Err(e) => e == ServiceError::NotFound && !has_file(self.shares(), file_id),
            },
    {
        match self.file_index(file_id) {
            Some(i) => Ok(&self.shares[i].file),
            None => Err(ServiceError::NotFound),
        }
    }

    /// The file that the share link with the identity written in `share_id`
    /// was created with.
    pub fn get_share_link_doc(&self, share_id: &str) -> (r: Result<&File, ServiceError>)
        ensures
            match r {
                Ok(f) => parse_spec(share_id@) matches Some(id) && exists|i: int|
                    link_at(self.shares(), id, i) && *f == (#[trigger] self.shares()[i]).file,
                Err(e) => match parse_spec(share_id@) {
                    None => e == ServiceError::Validation(Field::ShareId),
                    Some(id) => e == ServiceError::NotFound && !has_link(self.shares(), id),
                },
            },
    {
        let id = match ObjectId::parse_str(share_id) {
            Some(id) => id,
            None => {
                return Err(ServiceError::Validation(Field::ShareId));
            },
        };
        match self.link_index(id) {
            Some(i) => Ok(&self.shares[i].file),
            None => Err(ServiceError::NotFound),
        }
    }

    /// The user to whom the file with the identity written in `file_id` is
    /// addressed.
    pub fn get_recipients_email_by_file_id(&self, file_id: &str) -> (r: Result<
        &User,
        ServiceError,
    >)
        requires
            self.wf(),
        ensures
            match r {
                Ok(u) => parse_spec(file_id@) matches Some(id) && exists|i: int, j: int|
                    0 <= i < self.shares().len() && (#[trigger] self.shares()[i]).file._id == id
                        && 0 <= j < self.users().len() && *u == (#[trigger] self.users()[j])
                        && u._id == self.shares()[i].link.reciepents_user_id,
                Err(e) => match parse_spec(file_id@) {
                    None => e == ServiceError::Validation(Field::FileId),
                    Some(id) => e == ServiceError::NotFound && forall|i: int|
                        0 <= i < self.shares().len() && (#[trigger] self.shares()[i]).file._id
                            == id ==> !has_user(
                            self.users(),
                            self.shares()[i].link.reciepents_user_id,
                        ),
                },
            },
    {
        let id = match ObjectId::parse_str(file_id) {
            Some(id) => id,
            None => {
                return Err(ServiceError::Validation(Field::FileId));
            },
        };
        let i = match self.file_index(id) {
            Some(i) => i,
            None => {
                return Err(ServiceError::NotFound);
            },
        };
        match self.user_index(self.shares[i].link.reciepents_user_id) {
            Some(j) => {
                assert(self.shares()[i as int].file._id == id && *&self.users[j as int]
                    == self.users()[j as int]);
                Ok(&self.users[j])
            },
            None => {
                proof {
                    self.lemma_one_file(id, i as int);
                }
                Err(ServiceError::NotFound)
            },
        }
    }

    /// A file's identity names one entry only.
    proof fn lemma_one_file(&self, id: ObjectId, i: int)
        requires
            0 <= i < self.shares().len(),
            self.shares()[i].file._id == id,
        ensures
            self.wf() ==> forall|k: int|
                0 <= k < self.shares().len() && (#[trigger] self.shares()[k]).file._id == id ==> k
                    == i,
    {
    }

    /// Removes the share link with the identity written in `share_id`, and its
    /// file with it.
    pub fn delete_file_by_share_id(&mut self, share_id: &str) -> (r: Result<bool, ServiceError>)
        requires
            old(self).wf(),
        ensures
            final(self).wf(),
            final(self).users() == old(self).users(),
            match r {
                Ok(b) => parse_spec(share_id@) matches Some(id) && b && exists|i: int|
                    link_at(old(self).shares(), id, i) && final(self).shares() == old(
                        self,
                    ).shares().remove(i),
                Err(e) => final(self).shares() == old(self).shares() && match parse_spec(
                    share_id@,
                ) {
                    None => e == ServiceError::Validation(Field::ShareId),
                    Some(id) => e == ServiceError::NotFound && !has_link(old(self).shares(), id),
                },
            },
    {
        let id = match ObjectId::parse_str(share_id) {
            Some(id) => id,
            None => {
                return Err(ServiceError::Validation(Field::ShareId));
            },
        };
        match self.link_index(id) {
            Some(i) => {
                self.remove_at(i);
                Ok(true)
            },
            None => Err(ServiceError::NotFound),
        }
    }

    /// Removes the entry at `i`.
    fn remove_at(&mut self, i: usize)
        requires
            old(self).wf(),
            i < old(self).shares().len(),
        ensures
            final(self).wf(),
            final(self).users() == old(self).users(),
            final(self).shares() == old(self).shares().remove(i as int),
    {
        let _ = self.shares.remove(i);
        proof {
            assert(self.users() == old(self).users());
            let before = old(self).shares@;
            let after = self.shares@;
            assert forall|k: int| 0 <= k < after.len() implies #[trigger] after[k] == before[if k
                < i {
                k
            } else {
                k + 1
            }] by {}
        }
    }

    /// Removes every share link that has expired at `now`, that is whose expiry
    /// is `now` or earlier, and its file with it. What has not expired stays,
    /// in its order.
    pub fn delete_expired_files(&mut self, now: i64) -> (report: SweepReport)
        requires
            old(self).wf(),
        ensures
            final(self).wf(),
            final(self).users() == old(self).users(),
            final(self).shares() == old(self).shares().filter(unexpired_at(now)),
            report.share_links == old(self).shares().len() - final(self).shares().len(),
            report.files == report.share_links,
    {
        let ghost before = self.shares@;
        let ghost keep = unexpired_at(now);
        let total = self.shares.len();
        let mut i: usize = 0;
        let mut removed: usize = 0;
        proof {
            lemma_filter_empty::<Share>(keep);
            assert(before.take(0) =~= Seq::<Share>::empty());
            assert(before.skip(0) =~= before);
            assert(self.shares@ =~= before.take(0).filter(keep) + before.skip(0));
        }
        while i < self.shares.len()
            invariant
                self.wf(),
                self.users() == old(self).users(),
                before == old(self).shares(),
                before.len() == total,
                keep == unexpired_at(now),
                i <= self.shares@.len(),
                i + removed <= before.len(),
                removed + self.shares@.len() == before.len(),
                self.shares@ == before.take(i + removed).filter(keep) + before.skip(i + removed),
                i == before.take(i + removed).filter(keep).len(),
            decreases self.shares@.len() - i,
        {
            let ghost j = (i + removed) as int;
            proof {
                lemma_filter_take_step(before, j, keep);
                assert(self.shares@[i as int] == before[j]);
            }
            if self.shares[i].link.expires_at <= now {
                self.remove_at(i);
                removed += 1;
                proof {
                    assert(self.shares@ =~= before.take(j + 1).filter(keep) + before.skip(j + 1));
                }
            } else {
                i += 1;
                proof {
                    assert(self.shares@ =~= before.take(j + 1).filter(keep) + before.skip(j + 1));
                }
            }
        }
        proof {
            assert(before.take(before.len() as int) =~= before);
            assert(self.shares@ =~= before.filter(keep));
        }
        SweepReport { share_links: removed, files: removed }
    }

    /// One page of the shares that `pick` picks, each file with the
    /// hexadecimal identity of its share link.
    fn list_page(&self, uid: ObjectId, sent: bool, page: u32, limit: usize) -> (r: Vec<
        (&File, String),
    >)
        requires
            page >= 1,
        ensures
            shows(
                r@,
                listing(
                    self.shares(),
                    if sent {
                        sent_by(uid)
                    } else {
                        received_by(uid)
                    },
                    page,
                    limit,
                ),
            ),
    {
        let ghost pick = if sent {
            sent_by(uid)
        } else {
            received_by(uid)
        };
        let ghost offset = ((page - 1) * limit) as nat;
        assert(0 <= (page - 1) * limit <= 0xffff_ffff * 0xffff_ffff_ffff_ffff) by (nonlinear_arith)
            requires
                0 <= page - 1 <= 0xffff_ffff,
                0 <= limit <= 0xffff_ffff_ffff_ffff,
        ;
        let first: u128 = ((page - 1) as u128) * (limit as u128);
        let mut out: Vec<(&File, String)> = Vec::new();
        let mut seen: usize = 0;
        let mut i: usize = 0;
        proof {
            lemma_filter_empty::<Share>(pick);
            assert(self.shares@.take(0) =~= Seq::<Share>::empty());
        }
        while i < self.shares.len()
            invariant
                i <= self.shares@.len(),
                first == offset,
                offset == ((page - 1) * limit) as nat,
                pick == if sent {
                    sent_by(uid)
                } else {
                    received_by(uid)
                },
                seen == self.shares@.take(i as int).filter(pick).len(),
                seen <= i,
                shows(out@, window(self.shares@.take(i as int).filter(pick), offset, limit as nat)),
            decreases self.shares@.len() - i,
        {
            let share = &self.shares[i];
            let picked = if sent {
                share.file.user_id == uid
            } else {
                share.link.reciepents_user_id == uid
            };
            proof {
                lemma_filter_take_step(self.shares@, i as int, pick);
                lemma_window_push(
                    self.shares@.take(i as int).filter(pick),
                    self.shares@[i as int],
                    offset,
                    limit as nat,
                );
            }
            if picked {
                if first <= seen as u128 && (seen as u128) < first + (limit as u128) {
                    out.push((&share.file, share.link._id.to_hex()));
                }
                seen += 1;
            }
            i += 1;
        }
        proof {
            assert(self.shares@.take(self.shares@.len() as int) =~= self.shares@);
        }
        out
    }

    /// One page of the files that the user with the identity written in
    /// `user_id` has uploaded, oldest first, `limit` to a page, pages counted
    /// from one.
    pub fn get_sent_files(&self, user_id: &str, page: u32, limit: usize) -> (r: Result<
        Vec<(&File, String)>,
        ServiceError,
    >)
        ensures
            match r {
                Ok(v) => listing_refusal(user_id@, page) is None && shows(
                    v@,
                    listing(self.shares(), sent_by(parse_spec(user_id@).unwrap()), page, limit),
                ),
                Err(e) => listing_refusal(user_id@, page) == Some(e),
            },
    {
        let uid = match ObjectId::parse_str(user_id) {
            Some(id) => id,
            None => {
                return Err(ServiceError::Validation(Field::UserId));
            },
        };
        if page == 0 {
            return Err(ServiceError::Validation(Field::Page));
        }
        Ok(self.list_page(uid, true, page, limit))
    }

    /// One page of the files that are addressed to the user with the identity
    /// written in `user_id`, oldest first, `limit` to a page, pages counted
    /// from one.
    pub fn get_recieve_files(&self, user_id: &str, page: u32, limit: usize) -> (r: Result<
        Vec<(&File, String)>,
        ServiceError,
    >)
        ensures
            match r {
                Ok(v) => listing_refusal(user_id@, page) is None && shows(
                    v@,
                    listing(
                        self.shares(),
                        received_by(parse_spec(user_id@).unwrap()),
                        page,
                        limit,
                    ),
                ),
                Err(e) => listing_refusal(user_id@, page) == Some(e),
            },
    {
        let uid = match ObjectId::parse_str(user_id) {
            Some(id) => id,
            None => {
                return Err(ServiceError::Validation(Field::UserId));
            },
        };
        if page == 0 {
            return Err(ServiceError::Validation(Field::Page));
        }
        Ok(self.list_page(uid, false, page, limit))
    }
}

} // verus!
