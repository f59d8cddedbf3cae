use secure_file_share::auth_controller::{register_user_with, respond, Fresh};
use secure_file_share::config::Config;
use secure_file_share::db::{Database, SweepReport};
use secure_file_share::dtos::{FileUploadDtos, RegisterUserDto, RetrieveFileDto};
use secure_file_share::error::ServiceError;
use secure_file_share::file_controller::{retrieve_file, upload_file};
use secure_file_share::ident::ObjectId;
use secure_file_share::keys::{new_pair, PrivateKeyStore};
use secure_file_share::middleware::validator;
use secure_file_share::reaper::{step, ReaperAction, ReaperEvent, ReaperState, DAILY};

const NOW: i64 = 1_700_000_000;

fn registration(name: &str, email: &str, password: &str) -> RegisterUserDto {
    RegisterUserDto {
        name: name.into(),
        email: email.into(),
        password: password.into(),
        password_confirm: password.into(),
    }
}

#[test]
fn alice_shares_a_file_with_bob_until_it_expires() {
    let config = Config::new("mongodb://localhost".into(), "jwt secret".into(), 900, 86_400);
    let mut db = Database::init();
    let mut keys = PrivateKeyStore::new();

    let mut register = |name: &str, email: &str, password: &str, number: u32| {
        let drawn = Fresh {
            salt: "c29tZXNhbHQ".into(),
            id: ObjectId { hi: 0x6553_f100, mid: 0, lo: number },
            key_pair: Some(new_pair(512).unwrap()),
        };
        let outcome = register_user_with(registration(name, email, password), &mut db, &mut keys, &config, NOW, drawn);
        respond(outcome, "Registration successful")
    };
    let alice = register("Alice", "alice@example.com", "alices password", 1);
    let bob = register("Bob", "bob@example.com", "bobs password", 2);
    let eve = register("Eve", "eve@example.com", "eves password", 3);
    assert_eq!(eve.status_code, 201);
    assert_eq!(alice.status_code, 201);
    assert_eq!(bob.status_code, 201);
    let alice = validator(Some(&format!("Bearer {}", alice.access_token.unwrap())), &config, NOW + 1).unwrap();
    let bob = validator(Some(&format!("Bearer {}", bob.access_token.unwrap())), &config, NOW + 1).unwrap();
    assert!(keys.load_private_key(alice).is_ok());
    assert!(keys.load_private_key(bob).is_ok());
    let eve = validator(Some(&format!("Bearer {}", eve.access_token.unwrap())), &config, NOW + 1).unwrap();
    assert!(keys.load_private_key(eve).is_ok());

    let form = FileUploadDtos {
        recipient_email: "bob@example.com".into(),
        password: "secret1".into(),
        expiration_date: "2023-11-15T22:13:21Z".into(),
    };
    let uploaded = upload_file(&mut db, Some(alice), "greeting".into(), b"hi bob".to_vec(), &form, NOW + 1).unwrap();
    let share_id = ObjectId::parse_str(&uploaded.share_id).unwrap();
    let expiry = db.find_share(share_id).unwrap().link.expires_at;
    assert_eq!(expiry, NOW + 1 + 86_400);

    let request = |password: &str| RetrieveFileDto { shared_id: uploaded.share_id.clone(), password: password.into() };
    assert_eq!(retrieve_file(&db, &keys, Some(bob), &request("secret1")).unwrap().file, b"hi bob".to_vec());
    for password in ["secret1", "secret2", "", "bobs password"] {
        assert_eq!(
            retrieve_file(&db, &keys, Some(eve), &request(password)).err(),
            Some(ServiceError::Unauthorized)
        );
    }

    let (state, action) = step(DAILY, ReaperState::Idle, ReaperEvent::Started { now: NOW + 2 });
    assert_eq!(action, ReaperAction::Sleep { seconds: 6_398 });
    let (state, action) = step(DAILY, state, ReaperEvent::Woke { now: NOW + 6_400 });
    assert_eq!(action, ReaperAction::Sweep);
    assert_eq!(db.delete_expired_files(NOW + 6_400), SweepReport { share_links: 0, files: 0 });
    assert_eq!(retrieve_file(&db, &keys, Some(bob), &request("secret1")).unwrap().file, b"hi bob".to_vec());

    let (state, action) = step(DAILY, state, ReaperEvent::Swept { now: NOW + 6_401 });
    assert_eq!(action, ReaperAction::Sleep { seconds: 86_399 });
    assert!(retrieve_file(&db, &keys, Some(bob), &request("secret1")).is_ok());
    let (_, action) = step(DAILY, state, ReaperEvent::Woke { now: NOW + 6_400 + 86_400 });
    assert_eq!(action, ReaperAction::Sweep);
    assert!(NOW + 6_400 + 86_400 > expiry);
    assert_eq!(db.delete_expired_files(NOW + 6_400 + 86_400), SweepReport { share_links: 1, files: 1 });
    assert_eq!(
        retrieve_file(&db, &keys, Some(bob), &request("secret1")).err(),
        Some(ServiceError::NotFound)
    );
    assert_eq!(
        retrieve_file(&db, &keys, Some(eve), &request("secret1")).err(),
        Some(ServiceError::NotFound)
    );
    assert!(db.get_user_by_id(alice).is_ok());
    assert!(db.get_user_by_id(bob).is_ok());
}
