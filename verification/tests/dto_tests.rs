use secure_file_share::config::Config;
use secure_file_share::dtos::{
    validate_expiration_date, FileUploadDtos, FilterSearchUserDto, FilterUserDto, FilteredFile,
    LoginUserDto, QueryParams, RefreshTokenDto, RegisterUserDto, RetrieveFileDto,
};
use secure_file_share::error::{Field, ServiceError};
use secure_file_share::ident::ObjectId;
use secure_file_share::models::{File, User};

fn refused(field: Field) -> Result<(), ServiceError> {
    Err(ServiceError::Validation(field))
}

fn registration() -> RegisterUserDto {
    RegisterUserDto {
        name: "Alice".into(),
        email: "alice@example.com".into(),
        password: "secret1".into(),
        password_confirm: "secret1".into(),
    }
}

#[test]
fn a_registration_keeps_its_rules() {
    assert_eq!(registration().validate(), Ok(()));
    assert_eq!(RegisterUserDto { name: "".into(), ..registration() }.validate(), refused(Field::Name));
    assert_eq!(RegisterUserDto { email: "".into(), ..registration() }.validate(), refused(Field::Email));
    assert_eq!(
        RegisterUserDto { email: "alice.example.com".into(), ..registration() }.validate(),
        refused(Field::Email)
    );
    assert_eq!(
        RegisterUserDto { email: "alice@".into(), ..registration() }.validate(),
        refused(Field::Email)
    );
    assert_eq!(
        RegisterUserDto { password: "".into(), password_confirm: "".into(), ..registration() }.validate(),
        refused(Field::Password)
    );
    assert_eq!(
        RegisterUserDto { password: "12345".into(), password_confirm: "12345".into(), ..registration() }
            .validate(),
        refused(Field::Password)
    );
    assert_eq!(
        RegisterUserDto { password_confirm: "".into(), ..registration() }.validate(),
        refused(Field::PasswordConfirm)
    );
    assert_eq!(
        RegisterUserDto { password_confirm: "secret2".into(), ..registration() }.validate(),
        refused(Field::PasswordConfirm)
    );
    assert_eq!(
        RegisterUserDto { name: "".into(), email: "".into(), ..registration() }.validate(),
        refused(Field::Name)
    );
    assert_eq!(RegisterUserDto::default().validate(), refused(Field::Name));
}

#[test]
fn the_length_of_a_field_is_counted_in_characters() {
    let six_letters = RegisterUserDto {
        password: "éééééé".into(),
        password_confirm: "éééééé".into(),
        ..registration()
    };
    let five_letters = RegisterUserDto {
        password: "ééééé".into(),
        password_confirm: "ééééé".into(),
        ..registration()
    };
    assert_eq!(six_letters.validate(), Ok(()));
    assert_eq!(five_letters.validate(), refused(Field::Password));
}

#[test]
fn a_login_keeps_its_rules() {
    let ok = LoginUserDto { email: "bob@example.com".into(), password: "secret1".into() };
    assert_eq!(ok.validate(), Ok(()));
    assert_eq!(
        LoginUserDto { email: "bob".into(), password: "secret1".into() }.validate(),
        refused(Field::Email)
    );
    assert_eq!(
        LoginUserDto { email: "bob@example.com".into(), password: "secre".into() }.validate(),
        refused(Field::Password)
    );
    assert_eq!(LoginUserDto::default().validate(), refused(Field::Email));
}

#[test]
fn a_refresh_and_a_retrieval_keep_their_rules() {
    assert_eq!(RefreshTokenDto { refresh_token: "t".into() }.validate(), Ok(()));
    assert_eq!(RefreshTokenDto::default().validate(), refused(Field::RefreshToken));
    let ok = RetrieveFileDto { shared_id: "1".into(), password: "secret1".into() };
    assert_eq!(ok.validate(), Ok(()));
    assert_eq!(
        RetrieveFileDto { shared_id: "".into(), password: "secret1".into() }.validate(),
        refused(Field::ShareId)
    );
    assert_eq!(
        RetrieveFileDto { shared_id: "1".into(), password: "".into() }.validate(),
        refused(Field::Password)
    );
}

#[test]
fn an_expiry_is_an_rfc_3339_instant_after_now() {
    let refused: Result<i64, ServiceError> = Err(ServiceError::Validation(Field::ExpirationDate));
    assert_eq!(validate_expiration_date("2030-01-01T00:00:00Z", 0), Ok(1893456000));
    assert_eq!(validate_expiration_date("2030-01-01T00:00:00.999Z", 0), Ok(1893456000));
    assert_eq!(validate_expiration_date("2030-01-01T01:00:00+01:00", 0), Ok(1893456000));
    assert_eq!(validate_expiration_date("1996-12-19T16:39:57-08:00", 0), Ok(851042397));
    assert_eq!(validate_expiration_date("2030-01-01T00:00:00Z", 1893455999), Ok(1893456000));
    assert_eq!(validate_expiration_date("2030-01-01T00:00:00Z", 1893456000), refused);
    assert_eq!(validate_expiration_date("2030-01-01T00:00:00Z", 1893456001), refused);
    assert_eq!(validate_expiration_date("2030-01-01T00:00:00Z", i64::MAX), refused);
    assert_eq!(validate_expiration_date("1969-12-31T23:59:59Z", -2), Ok(-1));
    assert_eq!(validate_expiration_date("", 0), refused);
    assert_eq!(validate_expiration_date("2030-01-01", 0), refused);
    assert_eq!(validate_expiration_date("2030-01-01 00:00:00", 0), refused);
    assert_eq!(validate_expiration_date("1893456000", 0), refused);
    assert_eq!(validate_expiration_date("2030-02-30T00:00:00Z", 0), refused);
}

#[test]
fn an_upload_form_keeps_its_rules_and_gives_its_expiry() {
    let form = |email: &str, password: &str, date: &str| FileUploadDtos {
        recipient_email: email.into(),
        password: password.into(),
        expiration_date: date.into(),
    };
    let date = "2030-01-01T00:00:00Z";
    assert_eq!(form("bob@example.com", "secret1", date).validate(0), Ok(1893456000));
    assert_eq!(
        form("bob", "secret1", date).validate(0),
        Err(ServiceError::Validation(Field::RecipientEmail))
    );
    assert_eq!(form("", "", "").validate(0), Err(ServiceError::Validation(Field::RecipientEmail)));
    assert_eq!(
        form("bob@example.com", "secre", date).validate(0),
        Err(ServiceError::Validation(Field::Password))
    );
    assert_eq!(
        form("bob@example.com", "secret1", "tomorrow").validate(0),
        Err(ServiceError::Validation(Field::ExpirationDate))
    );
    assert_eq!(
        form("bob@example.com", "secret1", date).validate(1893456000),
        Err(ServiceError::Validation(Field::ExpirationDate))
    );
}

#[test]
fn a_query_names_its_page_and_its_limit() {
    let none = QueryParams { skip: None, limit: None };
    assert_eq!(none.page(), Ok(1));
    assert_eq!(none.page_limit(), 10);
    let some = QueryParams { skip: Some(3), limit: Some(25) };
    assert_eq!(some.page(), Ok(3));
    assert_eq!(some.page_limit(), 25);
    assert_eq!(QueryParams { skip: Some(0), limit: Some(0) }.page(), Ok(0));
    assert_eq!(QueryParams { skip: Some(0), limit: Some(0) }.page_limit(), 0);
    assert_eq!(QueryParams { skip: Some(i32::MAX), limit: None }.page(), Ok(2147483647));
    assert_eq!(
        QueryParams { skip: Some(-1), limit: None }.page(),
        Err(ServiceError::Validation(Field::Page))
    );
}

#[test]
fn what_is_shown_of_a_user_leaves_the_password_out() {
    let user = User {
        _id: ObjectId { hi: 1, mid: 2, lo: 3 },
        username: "Alice".into(),
        email: "alice@example.com".into(),
        password: "hash".into(),
        public_key: "key".into(),
        created_at: 1,
        updated_at: 2,
    };
    let own = FilterUserDto::filter_user(&user);
    assert_eq!(own.id, "000000010000000200000003");
    assert_eq!(own.name, "Alice");
    assert_eq!(own.email, "alice@example.com");
    assert_eq!(own.public_key, "key");
    let found = FilterSearchUserDto::filter_user(&user);
    assert_eq!(found.id, "000000010000000200000003");
    assert_eq!(found.name, "Alice");
    assert_eq!(found.email, "alice@example.com");
}

#[test]
fn what_is_shown_of_a_file_leaves_the_ciphertext_out() {
    let file = File {
        _id: ObjectId { hi: 0, mid: 0, lo: 0x10 },
        user_id: ObjectId { hi: 0, mid: 0, lo: 1 },
        file_name: "a.txt".into(),
        file_size: 6,
        encrypted_aes_key: vec![1],
        encrypted_file: vec![2],
        iv: vec![3],
        created_at: 50,
        updated_at: 60,
    };
    let shown = FilteredFile::filter_file(&file, "bob@example.com".into(), Some("link".into()));
    assert_eq!(shown.id, "000000000000000000000010");
    assert_eq!(shown.name, "a.txt");
    assert_eq!(shown.size, 6);
    assert_eq!(shown.shared_at, 50);
    assert_eq!(shown.recipients_email, "bob@example.com");
    assert_eq!(shown.share_id, Some("link".to_string()));
    assert_eq!(FilteredFile::filter_file(&file, "".into(), None).share_id, None);
}

#[test]
fn a_configuration_listens_on_the_default_port() {
    let config = Config::new("mongodb://localhost".into(), "secret".into(), 60, 3600);
    assert_eq!(config.database_url, "mongodb://localhost");
    assert_eq!(config.jwt_secret, "secret");
    assert_eq!(config.access_token_maxage, 60);
    assert_eq!(config.refresh_token_maxage, 3600);
    assert_eq!(config.port, 8080);
}
