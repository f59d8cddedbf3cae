//! The persisted records. Times are seconds since the Unix epoch.

use vstd::prelude::*;
use crate::ident::ObjectId;

verus! {

/// A registered user. The public key is the base64 text of a PKCS#1 PEM; the
/// matching private key is never part of the record.
#[derive(Debug)]
pub struct User {
    pub _id: ObjectId,
    pub username: String,
    pub email: String,
    /// The PHC string of the login password.
    pub password: String,
    /// Empty until a key pair has been attached.
    pub public_key: String,
    pub created_at: i64,
    pub updated_at: i64,
}

/// An uploaded file, encrypted for one recipient. Never changed after its
/// creation.
#[derive(Debug)]
pub struct File {
    pub _id: ObjectId,
    /// The uploader.
    pub user_id: ObjectId,
    pub file_name: String,
    /// The length of the plaintext, in bytes.
    pub file_size: i64,
    /// The symmetric key, wrapped under the recipient's public key.
    pub encrypted_aes_key: Vec<u8>,
    pub encrypted_file: Vec<u8>,
    pub iv: Vec<u8>,
    pub created_at: i64,
    pub updated_at: i64,
}

/// The grant that lets one recipient fetch one file until it expires.
#[derive(Debug)]
pub struct ShareLink {
    pub _id: ObjectId,
    pub reciepents_user_id: ObjectId,
    pub file_id: ObjectId,
    /// The PHC string of the share password.
    pub password: String,
    pub expires_at: i64,
    pub created_at: i64,
}

/// A file together with the one share link that was created with it.
#[derive(Debug)]
pub struct Share {
    pub file: File,
    pub link: ShareLink,
}

/// A user's record as a value: every text as its characters.
pub struct UserView {
    pub _id: ObjectId,
    pub username: Seq<char>,
    pub email: Seq<char>,
    pub password: Seq<char>,
    pub public_key: Seq<char>,
    pub created_at: i64,
    pub updated_at: i64,
}

impl View for User {
    type V = UserView;

    open spec fn view(&self) -> UserView {
        UserView {
            _id: self._id,
            username: self.username@,
            email: self.email@,
            password: self.password@,
            public_key: self.public_key@,
            created_at: self.created_at,
            updated_at: self.updated_at,
        }
    }
}

/// A file's record as a value: the name as its characters, and what is
/// encrypted as its bytes.
pub struct FileView {
    pub _id: ObjectId,
    pub user_id: ObjectId,
    pub file_name: Seq<char>,
    pub file_size: i64,
    pub encrypted_aes_key: Seq<u8>,
    pub encrypted_file: Seq<u8>,
    pub iv: Seq<u8>,
    pub created_at: i64,
    pub updated_at: i64,
}

impl View for File {
    type V = FileView;

    open spec fn view(&self) -> FileView {
        FileView {
            _id: self._id,
            user_id: self.user_id,
            file_name: self.file_name@,
            file_size: self.file_size,
            encrypted_aes_key: self.encrypted_aes_key@,
            encrypted_file: self.encrypted_file@,
            iv: self.iv@,
            created_at: self.created_at,
            updated_at: self.updated_at,
        }
    }
}

/// A share link's record as a value.
pub struct ShareLinkView {
    pub _id: ObjectId,
    pub reciepents_user_id: ObjectId,
    pub file_id: ObjectId,
    pub password: Seq<char>,
    pub expires_at: i64,
    pub created_at: i64,
}

impl View for ShareLink {
    type V = ShareLinkView;

    open spec fn view(&self) -> ShareLinkView {
        ShareLinkView {
            _id: self._id,
            reciepents_user_id: self.reciepents_user_id,
            file_id: self.file_id,
            password: self.password@,
            expires_at: self.expires_at,
            created_at: self.created_at,
        }
    }
}

/// A file and its share link as values.
pub struct ShareView {
    pub file: FileView,
    pub link: ShareLinkView,
}

impl View for Share {
    type V = ShareView;

    open spec fn view(&self) -> ShareView {
        ShareView { file: self.file@, link: self.link@ }
    }
}

} // verus!
