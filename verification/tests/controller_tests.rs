use secure_file_share::auth_controller::{
    login, login_user, refresh, refresh_tokens, register, register_user, register_user_with,
    respond, Fresh,
};
use secure_file_share::config::Config;
use secure_file_share::db::{Database, Upload};
use secure_file_share::dtos::{
    DeleteFileQuery, FileUploadDtos, LoginUserDto, QueryParams, RefreshTokenDto, RegisterUserDto,
    RetrieveFileDto, SearchUserQuery,
};
use secure_file_share::error::{Field, ServiceError};
use secure_file_share::file_controller::{
    delete_file, get_recieve_files, get_user_files, retrieve_file, upload_file,
};
use secure_file_share::ident::ObjectId;
use secure_file_share::keys::{attach_keys, decode_public_key, new_pair, KeyPair, PrivateKeyStore};
use secure_file_share::middleware::validator;
use secure_file_share::password;
use secure_file_share::token::{create_token_at, decode_token_at, TokenPair};
use secure_file_share::user_controller::{get_user, search_users};

const NOW: i64 = 1_700_000_000;
const TOMORROW: &str = "2023-11-15T22:13:20Z";

fn config() -> Config {
    Config::new("mongodb://localhost".into(), "jwt secret".into(), 900, 86_400)
}

fn id(n: u32) -> ObjectId {
    ObjectId { hi: 0x65a1_b2c3, mid: 0, lo: n }
}

fn registration(name: &str, email: &str, password: &str) -> RegisterUserDto {
    RegisterUserDto {
        name: name.into(),
        email: email.into(),
        password: password.into(),
        password_confirm: password.into(),
    }
}

fn subject_of(token: &str) -> ObjectId {
    let subject = decode_token_at(token, b"jwt secret", NOW).unwrap();
    ObjectId::parse_str(&subject).unwrap()
}

fn form(email: &str, password: &str) -> FileUploadDtos {
    FileUploadDtos {
        recipient_email: email.into(),
        password: password.into(),
        expiration_date: TOMORROW.into(),
    }
}

const SALT: &str = "c29tZXNhbHQ";

fn fresh(n: u32) -> Fresh {
    Fresh { salt: SALT.into(), id: id(n), key_pair: Some(new_pair(512).unwrap()) }
}

fn bare_user(db: &mut Database, n: u32, name: &str, email: &str) -> ObjectId {
    db.create_user_with_id(id(n), name.into(), email.into(), "no hash".into(), NOW).unwrap()
}

fn plain_user(db: &mut Database, n: u32, name: &str, email: &str) -> ObjectId {
    let hashed = password::hash_with_salt("secret1", "c29tZXNhbHQ").unwrap();
    db.create_user_with_id(id(n), name.into(), email.into(), hashed, NOW).unwrap()
}

#[test]
fn a_registration_stores_the_user_with_keys_and_gives_tokens() {
    let mut db = Database::init();
    let mut keys = PrivateKeyStore::new();
    let drawn = fresh(1);
    let private_pem = drawn.key_pair.as_ref().unwrap().private_pem.clone();
    let public_pem = drawn.key_pair.as_ref().unwrap().public_pem.clone();
    let body = registration("Alice", "alice@example.com", "secret1");
    let pair = register_user_with(body, &mut db, &mut keys, &config(), NOW, drawn).unwrap();
    let alice = db.get_user("alice@example.com").unwrap();
    assert_eq!(alice._id, id(1));
    assert_eq!(alice.username, "Alice");
    assert_eq!(alice.created_at, NOW);
    assert_eq!(alice.updated_at, NOW);
    assert_eq!(alice.password, password::hash_with_salt("secret1", SALT).unwrap());
    assert_eq!(password::compare("secret1", &alice.password), Ok(true));
    assert_eq!(decode_public_key(&alice.public_key), Ok(public_pem));
    assert_eq!(keys.load_private_key(id(1)).unwrap(), &private_pem);
    assert_eq!(pair.access_token, create_token_at(&id(1).to_hex(), b"jwt secret", 900, NOW).unwrap());
    assert_eq!(pair.refresh_token, create_token_at(&id(1).to_hex(), b"jwt secret", 86_400, NOW).unwrap());
    assert_eq!(subject_of(&pair.access_token), id(1));
    assert_eq!(decode_token_at(&pair.access_token, b"jwt secret", NOW + 900), Ok(id(1).to_hex()));
    assert!(decode_token_at(&pair.access_token, b"jwt secret", NOW + 901).is_err());
    assert_eq!(decode_token_at(&pair.refresh_token, b"jwt secret", NOW + 86_400), Ok(id(1).to_hex()));
    assert!(decode_token_at(&pair.refresh_token, b"jwt secret", NOW + 86_401).is_err());
}

#[test]
fn a_registration_is_refused_and_stores_nothing() {
    let mut db = Database::init();
    let mut keys = PrivateKeyStore::new();
    bare_user(&mut db, 1, "Alice", "alice@example.com");
    let mut attempt = |body: RegisterUserDto, drawn: Fresh| {
        register_user_with(body, &mut db, &mut keys, &config(), NOW, drawn).err()
    };
    assert_eq!(
        attempt(registration("Alice II", "alice@example.com", "secret1"), fresh(2)),
        Some(ServiceError::Conflict)
    );
    assert_eq!(
        attempt(registration("Bob", "bob@example.com", ""), fresh(2)),
        Some(ServiceError::Validation(Field::Password))
    );
    assert_eq!(
        attempt(registration("Bob", "bob@example.com", &"x".repeat(65)), fresh(2)),
        Some(ServiceError::Validation(Field::Password))
    );
    assert_eq!(attempt(registration("Bob", "bob@example.com", "secret1"), fresh(1)), Some(ServiceError::Conflict));
    let no_salt = Fresh { salt: "!".into(), ..fresh(2) };
    assert_eq!(attempt(registration("Bob", "bob@example.com", "secret1"), no_salt), Some(ServiceError::Crypto));
    assert_eq!(db.search_user("").unwrap().len(), 1);
    assert!(keys.load_private_key(id(1)).is_err());
    assert!(keys.load_private_key(id(2)).is_err());
}

#[test]
fn a_registration_whose_keys_fail_leaves_the_user_without_keys() {
    let mut db = Database::init();
    let mut keys = PrivateKeyStore::new();
    let drawn = Fresh { salt: SALT.into(), id: id(2), key_pair: None };
    let r = register_user_with(registration("Bob", "bob@example.com", "secret1"), &mut db, &mut keys, &config(), NOW, drawn);
    assert_eq!(r.err(), Some(ServiceError::Crypto));
    let bob = db.get_user("bob@example.com").unwrap();
    assert_eq!(bob._id, id(2));
    assert_eq!(bob.public_key, "");
    assert!(keys.load_private_key(id(2)).is_err());
}

#[test]
fn a_registration_whose_tokens_fail_leaves_the_user_with_keys() {
    let mut db = Database::init();
    let mut keys = PrivateKeyStore::new();
    let config = Config::new("".into(), "s".into(), 10, i64::MAX);
    let r = register_user_with(registration("Bob", "bob@example.com", "secret1"), &mut db, &mut keys, &config, NOW, fresh(2));
    assert_eq!(r.err(), Some(ServiceError::Crypto));
    assert_ne!(db.get_user("bob@example.com").unwrap().public_key, "");
    assert!(keys.load_private_key(id(2)).is_ok());
}

#[test]
fn a_registration_under_a_taken_address_is_a_conflict() {
    let mut db = Database::init();
    let mut keys = PrivateKeyStore::new();
    bare_user(&mut db, 1, "Alice", "alice@example.com");
    let again = register(registration("Alice II", "alice@example.com", "secret2"), &mut db, &mut keys, &config(), NOW);
    assert_eq!(again.status_code, 409);
    assert_eq!(again.message, "conflict");
    assert_eq!(again.access_token, None);
    assert_eq!(again.refresh_token, None);
    assert_eq!(db.get_user("alice@example.com").unwrap().username, "Alice");
    assert_eq!(db.search_user("").unwrap().len(), 1);
    assert!(keys.load_private_key(id(1)).is_err());
}

#[test]
fn a_registration_with_a_password_that_is_not_hashed_is_refused() {
    let mut db = Database::init();
    let mut keys = PrivateKeyStore::new();
    let empty = register_user(registration("A", "a@example.com", ""), &mut db, &mut keys, &config(), NOW);
    assert_eq!(empty.err(), Some(ServiceError::Validation(Field::Password)));
    let long = register(registration("A", "a@example.com", &"x".repeat(65)), &mut db, &mut keys, &config(), NOW);
    assert_eq!(long.status_code, 400);
    assert_eq!(long.message, "invalid input");
    assert!(db.search_user("").unwrap().is_empty());
}

#[test]
fn a_login_needs_the_address_and_the_password() {
    let mut db = Database::init();
    let alice = plain_user(&mut db, 1, "Alice", "alice@example.com");
    let body = |email: &str, password: &str| LoginUserDto { email: email.into(), password: password.into() };
    let pair = login_user(&body("alice@example.com", "secret1"), &db, &config(), NOW).unwrap();
    assert_eq!(pair.access_token, create_token_at(&alice.to_hex(), b"jwt secret", 900, NOW).unwrap());
    assert_eq!(pair.refresh_token, create_token_at(&alice.to_hex(), b"jwt secret", 86_400, NOW).unwrap());
    for (email, password) in [
        ("alice@example.com", "secret2"),
        ("alice@example.com", ""),
        ("bob@example.com", "secret1"),
        ("", "secret1"),
    ] {
        assert_eq!(
            login_user(&body(email, password), &db, &config(), NOW).err(),
            Some(ServiceError::Unauthorized)
        );
    }
    let answer = login(&body("alice@example.com", "secret1"), &db, &config(), NOW);
    assert_eq!(answer.status_code, 201);
    assert_eq!(answer.message, "Login successful");
    assert_eq!(answer.access_token, Some(pair.access_token));
    let refused = login(&body("alice@example.com", "wrong"), &db, &config(), NOW);
    assert_eq!(refused.status_code, 401);
    assert_eq!(refused.message, "unauthorized");
    assert_eq!(refused.access_token, None);
    assert_eq!(refused.refresh_token, None);
}

#[test]
fn a_login_fails_where_no_token_can_be_issued() {
    let mut db = Database::init();
    plain_user(&mut db, 1, "Alice", "alice@example.com");
    let body = LoginUserDto { email: "alice@example.com".into(), password: "secret1".into() };
    let config = Config::new("".into(), "s".into(), i64::MAX, 10);
    assert_eq!(login_user(&body, &db, &config, NOW).err(), Some(ServiceError::Crypto));
    assert_eq!(login(&body, &db, &config, NOW).status_code, 500);
}

#[test]
fn a_refresh_token_gives_a_new_pair_again_and_again() {
    let subject = id(7).to_hex();
    let token = create_token_at(&subject, b"jwt secret", 86_400, NOW).unwrap();
    let body = RefreshTokenDto { refresh_token: token };
    let first = refresh_tokens(&body, &config(), NOW + 10).unwrap();
    let second = refresh_tokens(&body, &config(), NOW + 20).unwrap();
    assert_eq!(first.access_token, create_token_at(&subject, b"jwt secret", 900, NOW + 10).unwrap());
    assert_eq!(first.refresh_token, create_token_at(&subject, b"jwt secret", 86_400, NOW + 10).unwrap());
    assert_eq!(second.access_token, create_token_at(&subject, b"jwt secret", 900, NOW + 20).unwrap());
    assert_eq!(refresh_tokens(&body, &config(), NOW + 86_401).err(), Some(ServiceError::Unauthorized));
    let answer = refresh(&body, &config(), NOW + 10);
    assert_eq!(answer.status_code, 201);
    assert_eq!(answer.message, "Token refreshed successfully");
    assert_eq!(answer.refresh_token, Some(first.refresh_token));
}

#[test]
fn an_access_token_refreshes_as_well_as_a_refresh_token() {
    let subject = id(7).to_hex();
    let access = create_token_at(&subject, b"jwt secret", 900, NOW).unwrap();
    let pair = refresh_tokens(&RefreshTokenDto { refresh_token: access }, &config(), NOW).unwrap();
    assert_eq!(subject_of(&pair.access_token), id(7));
}

#[test]
fn a_refresh_refuses_what_is_no_token_of_the_service() {
    let other_secret = create_token_at(&id(7).to_hex(), b"other", 900, NOW).unwrap();
    let no_identity = create_token_at("alice", b"jwt secret", 900, NOW).unwrap();
    for token in [other_secret.as_str(), no_identity.as_str(), "", "a.b.c"] {
        let body = RefreshTokenDto { refresh_token: token.into() };
        assert_eq!(refresh_tokens(&body, &config(), NOW).err(), Some(ServiceError::Unauthorized));
        assert_eq!(refresh(&body, &config(), NOW).status_code, 401);
    }
}

#[test]
fn a_refresh_writes_the_subject_in_small_letters() {
    let upper = id(7).to_hex().to_uppercase();
    let token = create_token_at(&upper, b"jwt secret", 900, NOW).unwrap();
    let pair = refresh_tokens(&RefreshTokenDto { refresh_token: token }, &config(), NOW).unwrap();
    assert_eq!(decode_token_at(&pair.access_token, b"jwt secret", NOW), Ok(id(7).to_hex()));
}

#[test]
fn an_outcome_is_answered_with_its_status() {
    let pair = TokenPair { access_token: "a".into(), refresh_token: "r".into() };
    let ok = respond(Ok(pair), "fine");
    assert_eq!(ok.status_code, 201);
    assert_eq!(ok.message, "fine");
    assert_eq!(ok.access_token, Some("a".to_string()));
    assert_eq!(ok.refresh_token, Some("r".to_string()));
    let failed = respond(Err(ServiceError::NotFound), "fine");
    assert_eq!(failed.status_code, 404);
    assert_eq!(failed.message, "not found");
    assert_eq!(failed.access_token, None);
    assert_eq!(failed.refresh_token, None);
}

#[test]
fn the_caller_is_resolved_from_a_bearer_token() {
    let access = create_token_at(&id(7).to_hex(), b"jwt secret", 900, NOW).unwrap();
    let refresh = create_token_at(&id(7).to_hex(), b"jwt secret", 86_400, NOW).unwrap();
    let header = format!("Bearer {}", access);
    assert_eq!(validator(Some(&header), &config(), NOW), Ok(id(7)));
    assert_eq!(validator(Some(&header), &config(), NOW + 900), Ok(id(7)));
    assert_eq!(validator(Some(&header), &config(), NOW + 901), Err(ServiceError::Unauthorized));
    assert_eq!(validator(Some(&format!("Bearer {}", refresh)), &config(), NOW + 901), Ok(id(7)));
    assert_eq!(validator(None, &config(), NOW), Err(ServiceError::Unauthorized));
    assert_eq!(validator(Some(&access), &config(), NOW), Err(ServiceError::Unauthorized));
    assert_eq!(validator(Some(&format!("bearer {}", access)), &config(), NOW), Err(ServiceError::Unauthorized));
    assert_eq!(validator(Some(&format!("Bearer  {}", access)), &config(), NOW), Err(ServiceError::Unauthorized));
    assert_eq!(validator(Some("Bearer "), &config(), NOW), Err(ServiceError::Unauthorized));
    let other = Config::new("".into(), "other".into(), 900, 86_400);
    assert_eq!(validator(Some(&header), &other, NOW), Err(ServiceError::Unauthorized));
    let no_identity = create_token_at("alice", b"jwt secret", 900, NOW).unwrap();
    assert_eq!(
        validator(Some(&format!("Bearer {}", no_identity)), &config(), NOW),
        Err(ServiceError::Unauthorized)
    );
}

#[test]
fn an_upload_is_refused_before_anything_is_stored() {
    let mut db = Database::init();
    let alice = bare_user(&mut db, 1, "Alice", "alice@example.com");
    bare_user(&mut db, 2, "Bob", "bob@example.com");
    db.update_public_key(id(2), "not base64!".into());
    let mut upload = |caller: Option<ObjectId>, form: FileUploadDtos| {
        upload_file(&mut db, caller, "a.txt".into(), b"hi bob".to_vec(), &form, NOW).err()
    };
    assert_eq!(upload(None, form("bob@example.com", "secret1")), Some(ServiceError::Unauthorized));
    assert_eq!(upload(Some(id(9)), form("bob@example.com", "secret1")), Some(ServiceError::Unauthorized));
    assert_eq!(
        upload(Some(alice), form("bob", "secret1")),
        Some(ServiceError::Validation(Field::RecipientEmail))
    );
    assert_eq!(
        upload(Some(alice), form("bob@example.com", "short")),
        Some(ServiceError::Validation(Field::Password))
    );
    let mut stale = form("bob@example.com", "secret1");
    stale.expiration_date = "2023-11-14T22:13:20Z".into();
    assert_eq!(upload(Some(alice), stale), Some(ServiceError::Validation(Field::ExpirationDate)));
    assert_eq!(upload(Some(alice), form("carol@example.com", "secret1")), Some(ServiceError::NotFound));
    assert_eq!(upload(Some(alice), form("bob@example.com", "secret1")), Some(ServiceError::Crypto));
    assert_eq!(upload(Some(alice), form("alice@example.com", "secret1")), Some(ServiceError::Crypto));
    assert_eq!(
        upload(Some(alice), form("alice@example.com", &"é".repeat(33))),
        Some(ServiceError::Validation(Field::Password))
    );
    assert_eq!(
        upload(Some(alice), form("bob@example.com", &"é".repeat(33))),
        Some(ServiceError::Crypto)
    );
    assert!(db.get_sent_files(&alice.to_hex(), 1, 10).unwrap().is_empty());
}

#[test]
fn an_upload_with_a_password_too_long_to_hash_is_refused() {
    let mut db = Database::init();
    let mut keys = PrivateKeyStore::new();
    register_user_with(registration("Bob", "bob@example.com", "secret1"), &mut db, &mut keys, &config(), NOW, fresh(2))
        .unwrap();
    let alice = bare_user(&mut db, 1, "Alice", "alice@example.com");
    let r = upload_file(
        &mut db,
        Some(alice),
        "a.txt".into(),
        b"hi bob".to_vec(),
        &form("bob@example.com", &"é".repeat(33)),
        NOW,
    );
    assert_eq!(r.err(), Some(ServiceError::Validation(Field::Password)));
}

#[test]
fn a_file_is_uploaded_retrieved_twice_and_listed() {
    let mut db = Database::init();
    let mut keys = PrivateKeyStore::new();
    register_user_with(registration("Bob", "bob@example.com", "hunter22"), &mut db, &mut keys, &config(), NOW, fresh(2))
        .unwrap();
    let bob = db.get_user("bob@example.com").unwrap()._id;
    let alice = bare_user(&mut db, 1, "Alice", "alice@example.com");
    let plain = b"hi bob, this is more than one block of text".to_vec();
    let answer = upload_file(
        &mut db,
        Some(alice),
        "note.txt".into(),
        plain.clone(),
        &form("bob@example.com", "secret1"),
        NOW,
    )
    .unwrap();
    assert_eq!(answer.status, 200);
    assert_eq!(answer.message, "File uploaded successfully");
    let share_id = ObjectId::parse_str(&answer.share_id).unwrap();
    let share = db.find_share(share_id).unwrap();
    assert_eq!(share.file.user_id, alice);
    assert_eq!(share.file.file_name, "note.txt");
    assert_eq!(share.file.file_size, 43);
    assert_eq!(share.file.encrypted_file.len(), 48);
    assert_eq!(share.file.iv.len(), 16);
    assert_eq!(share.file.encrypted_aes_key.len(), 64);
    assert_eq!(share.file.created_at, NOW);
    assert_eq!(share.link.reciepents_user_id, bob);
    assert_eq!(share.link.expires_at, NOW + 86_400);
    assert_ne!(share.link.password, "secret1");
    let file_id = share.file._id;

    let body = RetrieveFileDto { shared_id: answer.share_id.clone(), password: "secret1".into() };
    let first = retrieve_file(&db, &keys, Some(bob), &body).unwrap();
    let second = retrieve_file(&db, &keys, Some(bob), &body).unwrap();
    assert_eq!(first.file, plain);
    assert_eq!(second.file, plain);

    let wrong = RetrieveFileDto { shared_id: answer.share_id.clone(), password: "secret2".into() };
    assert_eq!(retrieve_file(&db, &keys, Some(bob), &wrong).err(), Some(ServiceError::Unauthorized));
    assert_eq!(retrieve_file(&db, &keys, Some(alice), &body).err(), Some(ServiceError::Unauthorized));
    assert_eq!(retrieve_file(&db, &keys, None, &body).err(), Some(ServiceError::Unauthorized));
    let unknown = RetrieveFileDto { shared_id: id(99).to_hex(), password: "secret1".into() };
    assert_eq!(retrieve_file(&db, &keys, Some(bob), &unknown).err(), Some(ServiceError::NotFound));
    let unreadable = RetrieveFileDto { shared_id: "share".into(), password: "secret1".into() };
    assert_eq!(
        retrieve_file(&db, &keys, Some(bob), &unreadable).err(),
        Some(ServiceError::Validation(Field::ShareId))
    );
    assert_eq!(
        retrieve_file(&db, &PrivateKeyStore::new(), Some(bob), &body).err(),
        Some(ServiceError::NotFound)
    );

    let first_page = QueryParams { skip: None, limit: None };
    let sent = get_user_files(&db, Some(alice), &first_page).unwrap();
    assert_eq!(sent.len(), 1);
    assert_eq!(sent[0].id, file_id.to_hex());
    assert_eq!(sent[0].name, "note.txt");
    assert_eq!(sent[0].size, 43);
    assert_eq!(sent[0].shared_at, NOW);
    assert_eq!(sent[0].recipients_email, "bob@example.com");
    assert_eq!(sent[0].share_id, Some(answer.share_id.clone()));
    let received = get_recieve_files(&db, Some(bob), &first_page).unwrap();
    assert_eq!(received.len(), 1);
    assert_eq!(received[0].id, file_id.to_hex());
    assert_eq!(received[0].recipients_email, "alice@example.com");
    assert_eq!(received[0].share_id, Some(answer.share_id.clone()));
    assert!(get_user_files(&db, Some(bob), &first_page).unwrap().is_empty());
    assert!(get_recieve_files(&db, Some(alice), &first_page).unwrap().is_empty());
}

#[test]
fn a_file_is_not_opened_with_the_key_of_another_pair() {
    let mut db = Database::init();
    let mut keys = PrivateKeyStore::new();
    register_user_with(registration("Bob", "bob@example.com", "hunter22"), &mut db, &mut keys, &config(), NOW, fresh(2))
        .unwrap();
    let bob = db.get_user("bob@example.com").unwrap()._id;
    let answer = upload_file(
        &mut db,
        Some(bob),
        "note.txt".into(),
        b"hi bob".to_vec(),
        &form("bob@example.com", "secret1"),
        NOW,
    )
    .unwrap();
    let body = RetrieveFileDto { shared_id: answer.share_id, password: "secret1".into() };
    assert_eq!(retrieve_file(&db, &keys, Some(bob), &body).unwrap().file, b"hi bob".to_vec());
    let mut other_db = Database::init();
    let mut other_keys = PrivateKeyStore::new();
    let KeyPair { private_pem, public_pem } = new_pair(512).unwrap();
    attach_keys(&mut other_db, &mut other_keys, bob, private_pem, &public_pem);
    assert_eq!(retrieve_file(&db, &other_keys, Some(bob), &body).err(), Some(ServiceError::Crypto));
    let mut broken = PrivateKeyStore::new();
    broken.put(bob, "no key".into());
    assert_eq!(retrieve_file(&db, &broken, Some(bob), &body).err(), Some(ServiceError::Crypto));
}

fn listed_store() -> Database {
    let mut db = Database::init();
    bare_user(&mut db, 1, "Alice", "alice@example.com");
    bare_user(&mut db, 2, "Bob", "bob@example.com");
    for n in 0..5u32 {
        let upload = Upload {
            file_name: format!("file{}", n),
            file_size: n as i64,
            file_data: vec![0u8; 16],
            iv: vec![0u8; 16],
            aes_key: vec![0u8; 256],
        };
        let to = if n == 3 { 9 } else { 2 };
        db.save_file_with_ids(id(10 + n), id(20 + n), upload, id(to), id(1), "h".into(), 100, 50 + n as i64)
            .unwrap();
    }
    db
}

#[test]
fn a_listing_comes_in_pages_with_the_other_users_address() {
    let db = listed_store();
    let page = |skip: i32, limit: usize| QueryParams { skip: Some(skip), limit: Some(limit) };
    let first = get_user_files(&db, Some(id(1)), &page(1, 2)).unwrap();
    assert_eq!(first.len(), 2);
    assert_eq!(first[0].name, "file0");
    assert_eq!(first[0].size, 0);
    assert_eq!(first[0].shared_at, 50);
    assert_eq!(first[0].share_id, Some(id(20).to_hex()));
    assert_eq!(first[1].name, "file1");
    assert_eq!(first[1].recipients_email, "bob@example.com");
    let third = get_user_files(&db, Some(id(1)), &page(3, 2)).unwrap();
    assert_eq!(third.len(), 1);
    assert_eq!(third[0].name, "file4");
    assert!(get_user_files(&db, Some(id(1)), &page(4, 2)).unwrap().is_empty());
    assert_eq!(get_user_files(&db, Some(id(1)), &page(2, 2)).err(), Some(ServiceError::NotFound));
    let received = get_recieve_files(&db, Some(id(2)), &page(2, 3)).unwrap();
    assert_eq!(received.len(), 1);
    assert_eq!(received[0].name, "file4");
    assert_eq!(received[0].recipients_email, "alice@example.com");
    assert_eq!(get_recieve_files(&db, Some(id(2)), &page(1, 10)).unwrap().len(), 4);
}

#[test]
fn a_listing_is_refused_without_a_caller_or_a_page() {
    let db = listed_store();
    let first_page = QueryParams { skip: None, limit: None };
    let page_zero = QueryParams { skip: Some(0), limit: None };
    let negative = QueryParams { skip: Some(-1), limit: None };
    assert_eq!(get_user_files(&db, None, &first_page).err(), Some(ServiceError::Unauthorized));
    assert_eq!(get_user_files(&db, None, &negative).err(), Some(ServiceError::Unauthorized));
    assert_eq!(get_user_files(&db, Some(id(1)), &page_zero).err(), Some(ServiceError::Validation(Field::Page)));
    assert_eq!(get_user_files(&db, Some(id(1)), &negative).err(), Some(ServiceError::Validation(Field::Page)));
    assert_eq!(get_recieve_files(&db, None, &first_page).err(), Some(ServiceError::Unauthorized));
    assert_eq!(get_recieve_files(&db, Some(id(2)), &page_zero).err(), Some(ServiceError::Validation(Field::Page)));
    assert!(get_recieve_files(&db, Some(id(9)), &first_page).unwrap().len() == 1);
}

#[test]
fn a_received_file_whose_uploader_is_gone_fails_the_listing() {
    let mut db = Database::init();
    bare_user(&mut db, 2, "Bob", "bob@example.com");
    let upload = Upload {
        file_name: "f".into(),
        file_size: 1,
        file_data: vec![0u8; 16],
        iv: vec![0u8; 16],
        aes_key: vec![0u8; 256],
    };
    db.save_file_with_ids(id(10), id(20), upload, id(2), id(1), "h".into(), 100, 50).unwrap();
    let first_page = QueryParams { skip: None, limit: None };
    assert_eq!(get_recieve_files(&db, Some(id(2)), &first_page).err(), Some(ServiceError::NotFound));
}

#[test]
fn only_the_uploader_deletes_a_file() {
    let mut db = listed_store();
    let query = |text: String| DeleteFileQuery { share_id: text };
    assert_eq!(delete_file(&mut db, None, &query(id(20).to_hex())), Err(ServiceError::Unauthorized));
    assert_eq!(delete_file(&mut db, Some(id(2)), &query(id(20).to_hex())), Err(ServiceError::Forbidden));
    assert_eq!(delete_file(&mut db, Some(id(9)), &query(id(23).to_hex())), Err(ServiceError::Forbidden));
    assert_eq!(
        delete_file(&mut db, Some(id(1)), &query("twenty".into())),
        Err(ServiceError::Validation(Field::ShareId))
    );
    assert_eq!(delete_file(&mut db, Some(id(1)), &query(id(29).to_hex())), Err(ServiceError::NotFound));
    assert_eq!(get_recieve_files(&db, Some(id(2)), &QueryParams { skip: None, limit: None }).unwrap().len(), 4);
    assert_eq!(delete_file(&mut db, Some(id(1)), &query(id(20).to_hex())), Ok(()));
    assert_eq!(db.find_share(id(20)).err(), Some(ServiceError::NotFound));
    assert_eq!(db.get_file(id(10)).err(), Some(ServiceError::NotFound));
    assert_eq!(delete_file(&mut db, Some(id(1)), &query(id(20).to_hex())), Err(ServiceError::NotFound));
    assert_eq!(get_recieve_files(&db, Some(id(2)), &QueryParams { skip: None, limit: None }).unwrap().len(), 3);
}

#[test]
fn a_caller_sees_the_own_record_without_the_password() {
    let mut db = Database::init();
    bare_user(&mut db, 1, "Alice", "alice@example.com");
    db.update_public_key(id(1), "key".into());
    let answer = get_user(&db, Some(id(1))).unwrap();
    assert_eq!(answer.status, "200");
    assert_eq!(answer.data.user.id, id(1).to_hex());
    assert_eq!(answer.data.user.name, "Alice");
    assert_eq!(answer.data.user.email, "alice@example.com");
    assert_eq!(answer.data.user.public_key, "key");
    assert_eq!(get_user(&db, Some(id(2))).err(), Some(ServiceError::Unauthorized));
    assert_eq!(get_user(&db, None).err(), Some(ServiceError::Unauthorized));
}

#[test]
fn users_are_found_by_a_part_of_their_address() {
    let mut db = Database::init();
    bare_user(&mut db, 1, "Alice", "alice@example.com");
    bare_user(&mut db, 2, "Bob", "bob@EXAMPLE.com");
    bare_user(&mut db, 3, "Eve", "eve@elsewhere.org");
    let answer = search_users(&db, &SearchUserQuery { email_text: "Example".into() }).unwrap();
    assert_eq!(answer.status, "200");
    assert_eq!(answer.users.len(), 2);
    assert_eq!(answer.users[0].id, id(1).to_hex());
    assert_eq!(answer.users[0].name, "Alice");
    assert_eq!(answer.users[0].email, "alice@example.com");
    assert_eq!(answer.users[1].name, "Bob");
    assert_eq!(answer.users[1].email, "bob@EXAMPLE.com");
    assert!(search_users(&db, &SearchUserQuery { email_text: "nobody".into() }).unwrap().users.is_empty());
}
