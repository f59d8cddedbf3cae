use secure_file_share::db::{Database, Upload};
use secure_file_share::error::{Field, PasswordError, ServiceError};
use secure_file_share::ident::ObjectId;
use secure_file_share::password;
use secure_file_share::share::{create, create_with, map_password_error, revoke, validate_access};

fn id(n: u32) -> ObjectId {
    ObjectId { hi: 0x65a1_b2c3, mid: 0, lo: n }
}

fn upload() -> Upload {
    Upload {
        file_name: "a.txt".to_string(),
        file_size: 6,
        file_data: b"cipher".to_vec(),
        iv: vec![1u8; 16],
        aes_key: vec![2u8; 256],
    }
}

const SALT: &str = "c29tZXNhbHQ";

#[test]
fn a_share_is_created_with_the_hash_of_its_password() {
    let mut db = Database::init();
    let share_id = create(&mut db, upload(), id(2), "secret1", 1000, id(1), 50).unwrap();
    let share = db.find_share(share_id).unwrap();
    assert_ne!(share.link.password, "secret1");
    assert_eq!(password::compare("secret1", &share.link.password), Ok(true));
    assert_eq!(share.link.reciepents_user_id, id(2));
    assert_eq!(share.link.expires_at, 1000);
    assert_eq!(share.link.created_at, 50);
    assert_eq!(share.link.file_id, share.file._id);
    assert_eq!(share.file.user_id, id(1));
    assert_eq!(share.file.encrypted_file, b"cipher".to_vec());
}

#[test]
fn a_share_under_given_salt_and_identities_is_stored_exactly() {
    let mut db = Database::init();
    let r = create_with(&mut db, upload(), id(2), "secret1", SALT, id(10), id(20), 1000, id(1), 50);
    assert_eq!(r, Ok(id(20)));
    let share = db.find_share(id(20)).unwrap();
    assert_eq!(share.file._id, id(10));
    assert_eq!(share.link.password, password::hash_with_salt("secret1", SALT).unwrap());
    let again = create_with(&mut db, upload(), id(2), "secret1", SALT, id(10), id(21), 1000, id(1), 50);
    assert_eq!(again, Err(ServiceError::Conflict));
    let again = create_with(&mut db, upload(), id(2), "secret1", SALT, id(11), id(20), 1000, id(1), 50);
    assert_eq!(again, Err(ServiceError::Conflict));
    let bad_salt = create_with(&mut db, upload(), id(2), "secret1", "!", id(11), id(21), 1000, id(1), 50);
    assert_eq!(bad_salt, Err(ServiceError::Crypto));
    assert_eq!(db.find_share(id(21)).err(), Some(ServiceError::NotFound));
}

#[test]
fn a_share_without_a_usable_password_is_not_created() {
    let mut db = Database::init();
    let long = "a".repeat(65);
    assert_eq!(
        create(&mut db, upload(), id(2), "", 1000, id(1), 50),
        Err(ServiceError::Validation(Field::Password))
    );
    assert_eq!(
        create(&mut db, upload(), id(2), &long, 1000, id(1), 50),
        Err(ServiceError::Validation(Field::Password))
    );
    assert_eq!(
        create_with(&mut db, upload(), id(2), "", SALT, id(10), id(20), 1000, id(1), 50),
        Err(ServiceError::Validation(Field::Password))
    );
    assert_eq!(db.find_share(id(20)).err(), Some(ServiceError::NotFound));
}

#[test]
fn password_failures_map_to_their_categories() {
    assert_eq!(map_password_error(PasswordError::Empty), ServiceError::Validation(Field::Password));
    assert_eq!(map_password_error(PasswordError::TooLong), ServiceError::Validation(Field::Password));
    assert_eq!(map_password_error(PasswordError::Hashing), ServiceError::Crypto);
    assert_eq!(map_password_error(PasswordError::InvalidHash), ServiceError::Crypto);
}

#[test]
fn access_is_granted_to_the_recipient_with_the_password_only() {
    let mut db = Database::init();
    create_with(&mut db, upload(), id(2), "secret1", SALT, id(10), id(20), 1000, id(1), 50).unwrap();
    assert_eq!(validate_access(&db, id(20), id(2), "secret1").unwrap().file._id, id(10));
    assert_eq!(validate_access(&db, id(20), id(2), "secret2").err(), Some(ServiceError::Unauthorized));
    assert_eq!(validate_access(&db, id(20), id(2), "secret").err(), Some(ServiceError::Unauthorized));
    assert_eq!(validate_access(&db, id(20), id(2), "secret11").err(), Some(ServiceError::Unauthorized));
    assert_eq!(validate_access(&db, id(20), id(2), "SECRET1").err(), Some(ServiceError::Unauthorized));
    assert_eq!(validate_access(&db, id(20), id(2), "").err(), Some(ServiceError::Unauthorized));
    assert_eq!(
        validate_access(&db, id(20), id(2), &"s".repeat(65)).err(),
        Some(ServiceError::Unauthorized)
    );
    assert_eq!(validate_access(&db, id(20), id(1), "secret1").err(), Some(ServiceError::Unauthorized));
    assert_eq!(validate_access(&db, id(20), id(3), "secret1").err(), Some(ServiceError::Unauthorized));
    assert_eq!(validate_access(&db, id(21), id(2), "secret1").err(), Some(ServiceError::NotFound));
}

#[test]
fn access_does_not_look_at_the_expiry() {
    let mut db = Database::init();
    create_with(&mut db, upload(), id(2), "secret1", SALT, id(10), id(20), 0, id(1), 50).unwrap();
    assert!(validate_access(&db, id(20), id(2), "secret1").is_ok());
    db.delete_expired_files(0);
    assert_eq!(validate_access(&db, id(20), id(2), "secret1").err(), Some(ServiceError::NotFound));
}

#[test]
fn a_stored_hash_that_cannot_be_read_grants_nothing() {
    let mut db = Database::init();
    db.save_file_with_ids(id(10), id(20), upload(), id(2), id(1), "secret1".into(), 1000, 50).unwrap();
    assert_eq!(validate_access(&db, id(20), id(2), "secret1").err(), Some(ServiceError::Unauthorized));
}

#[test]
fn only_the_uploader_revokes() {
    let mut db = Database::init();
    db.save_file_with_ids(id(10), id(20), upload(), id(2), id(1), "h".into(), 1000, 50).unwrap();
    db.save_file_with_ids(id(11), id(21), upload(), id(2), id(1), "h".into(), 1000, 50).unwrap();
    let link = id(20).to_hex();
    assert_eq!(revoke(&mut db, &link, id(2)), Err(ServiceError::Forbidden));
    assert_eq!(revoke(&mut db, &link, id(3)), Err(ServiceError::Forbidden));
    assert!(db.find_share(id(20)).is_ok());
    assert!(db.get_file(id(10)).is_ok());
    assert_eq!(revoke(&mut db, &link, id(1)), Ok(()));
    assert_eq!(db.find_share(id(20)).err(), Some(ServiceError::NotFound));
    assert_eq!(db.get_file(id(10)).err(), Some(ServiceError::NotFound));
    assert!(db.find_share(id(21)).is_ok());
    assert_eq!(revoke(&mut db, &link, id(1)), Err(ServiceError::NotFound));
    assert_eq!(revoke(&mut db, "20", id(1)), Err(ServiceError::Validation(Field::ShareId)));
    assert_eq!(revoke(&mut db, &link.to_uppercase(), id(1)), Err(ServiceError::NotFound));
    assert_eq!(revoke(&mut db, &id(21).to_hex().to_uppercase(), id(1)), Ok(()));
}
