use simple_rest_api::dto::{CreateUserDto, UserResponseDto};
use simple_rest_api::entity::UserEntity;
use simple_rest_api::repository::UserRepository;
use simple_rest_api::service::{hash_password, UserService};
use simple_rest_api::timestamp::Timestamp;

fn ts(secs: i64, nanos: u32) -> Timestamp {
    Timestamp::from_unix(secs, nanos).expect("representable instant")
}

fn dto(username: &str, email: &str, password: &str) -> CreateUserDto {
    CreateUserDto {
        username: username.to_string(),
        email: email.to_string(),
        password: password.to_string(),
    }
}

#[test]
fn timestamp_renders_epoch() {
    assert_eq!(ts(0, 0).to_text(), "1970-01-01 00:00:00");
}

#[test]
fn timestamp_renders_fraction() {
    assert_eq!(ts(90_061, 500_000_000).to_text(), "1970-01-02 01:01:01.500");
    assert_eq!(ts(1_700_000_000, 123_456_789).to_text(), "2023-11-14 22:13:20.123456789");
}

#[test]
fn timestamp_keeps_its_parts() {
    let t = ts(1_725_029_869, 42);
    assert_eq!(t.secs(), 1_725_029_869);
    assert_eq!(t.nanos(), 42);
}

#[test]
fn timestamp_out_of_range_is_refused() {
    assert!(Timestamp::from_unix(i64::MAX, 0).is_none());
    assert!(Timestamp::from_unix(0, 2_000_000_000).is_none());
}

#[test]
fn timestamp_now_renders_as_date_time() {
    let now = Timestamp::now().expect("clock after 1970");
    assert!(now.secs() > 1_600_000_000);
    assert!(now.nanos() < 1_000_000_000);
    let text = now.to_text();
    assert_eq!(text.as_bytes()[4], b'-');
    assert_eq!(text.as_bytes()[10], b' ');
}

#[test]
fn password_hash_has_prefix() {
    assert_eq!(hash_password("secret123"), "hashed_secret123");
    assert_eq!(hash_password(""), "hashed_");
}

#[test]
fn response_hides_hash_and_renders_time() {
    let entity = UserEntity {
        id: 7,
        username: "ali".to_string(),
        email: "ali@example.com".to_string(),
        password_hash: "hashed_secret123".to_string(),
        created_at: ts(0, 0),
    };
    let response = UserResponseDto::from(entity);
    assert_eq!(response.id, 7);
    assert_eq!(response.username, "ali");
    assert_eq!(response.email, "ali@example.com");
    assert_eq!(response.created_at, "1970-01-01 00:00:00");
}

#[test]
fn repository_starts_at_one() {
    let repo = UserRepository::new();
    assert_eq!(repo.next_id(), 1);
    assert!(repo.find_all().is_empty());
}

#[test]
fn repository_assigns_sequential_ids() {
    let mut repo = UserRepository::new();
    let a = repo.create_at("a".to_string(), "a@x.uz".to_string(), "h1".to_string(), ts(10, 0));
    let b = repo.create_at("b".to_string(), "b@x.uz".to_string(), "h2".to_string(), ts(20, 0));
    assert_eq!(a.id, 1);
    assert_eq!(b.id, 2);
    assert_eq!(repo.next_id(), 3);
    assert_eq!(b.created_at, ts(20, 0));
}

#[test]
fn repository_create_uses_clock() {
    let mut repo = UserRepository::new();
    let u = repo
        .create("ali".to_string(), "ali@example.com".to_string(), "h".to_string())
        .expect("clock readable");
    assert_eq!(u.id, 1);
    assert!(u.created_at.secs() > 1_600_000_000);
    let found = repo.find_by_id(1).expect("stored");
    assert_eq!(found.created_at, u.created_at);
}

#[test]
fn repository_find_by_id_reads_back() {
    let mut repo = UserRepository::new();
    repo.create_at("ali".to_string(), "ali@example.com".to_string(), "h".to_string(), ts(5, 0));
    let found = repo.find_by_id(1).expect("stored");
    assert_eq!(found.username, "ali");
    assert_eq!(found.email, "ali@example.com");
    assert_eq!(found.password_hash, "h");
    assert!(repo.find_by_id(2).is_none());
    assert!(repo.find_by_id(0).is_none());
    assert!(repo.find_by_id(-1).is_none());
}

#[test]
fn repository_find_by_email() {
    let mut repo = UserRepository::new();
    repo.create_at("a".to_string(), "a@x.uz".to_string(), "h".to_string(), ts(1, 0));
    repo.create_at("b".to_string(), "b@x.uz".to_string(), "h".to_string(), ts(1, 0));
    assert_eq!(repo.find_by_email("b@x.uz").expect("present").id, 2);
    assert!(repo.find_by_email("c@x.uz").is_none());
    assert!(repo.find_by_email("B@x.uz").is_none());
}

#[test]
fn repository_find_all_lists_each_once() {
    let mut repo = UserRepository::new();
    for i in 0..5 {
        repo.create_at(format!("u{i}"), format!("u{i}@x.uz"), "h".to_string(), ts(i, 0));
    }
    let mut ids: Vec<i32> = repo.find_all().iter().map(|u| u.id).collect();
    ids.sort();
    assert_eq!(ids, vec![1, 2, 3, 4, 5]);
}

#[test]
fn repository_delete_removes_and_returns() {
    let mut repo = UserRepository::new();
    repo.create_at("a".to_string(), "a@x.uz".to_string(), "h".to_string(), ts(1, 0));
    let removed = repo.delete(1).expect("present");
    assert_eq!(removed.username, "a");
    assert!(repo.find_by_id(1).is_none());
    assert!(repo.delete(1).is_none());
    assert!(repo.find_all().is_empty());
}

#[test]
fn repository_never_reuses_ids() {
    let mut repo = UserRepository::new();
    repo.create_at("a".to_string(), "a@x.uz".to_string(), "h".to_string(), ts(1, 0));
    repo.create_at("b".to_string(), "b@x.uz".to_string(), "h".to_string(), ts(1, 0));
    repo.delete(2);
    let c = repo.create_at("c".to_string(), "c@x.uz".to_string(), "h".to_string(), ts(1, 0));
    assert_eq!(c.id, 3);
}

#[test]
fn repository_create_then_delete_restores_users() {
    let mut repo = UserRepository::new();
    repo.create_at("a".to_string(), "a@x.uz".to_string(), "h".to_string(), ts(1, 0));
    let before = repo.find_all().len();
    let u = repo.create_at("b".to_string(), "b@x.uz".to_string(), "h".to_string(), ts(1, 0));
    repo.delete(u.id);
    assert_eq!(repo.find_all().len(), before);
    assert_eq!(repo.find_by_id(1).expect("kept").username, "a");
    assert_eq!(repo.next_id(), 3);
}

#[test]
fn service_create_user_returns_response() {
    let mut service = UserService::new(UserRepository::new());
    let response = service
        .create_user_at(dto("ali", "ali@example.com", "secret123"), ts(0, 0))
        .expect("created");
    assert_eq!(response.id, 1);
    assert_eq!(response.username, "ali");
    assert_eq!(response.email, "ali@example.com");
    assert_eq!(response.created_at, "1970-01-01 00:00:00");
}

#[test]
fn service_create_user_now() {
    let mut service = UserService::new(UserRepository::new());
    let response = service.create_user(dto("ali", "ali@example.com", "secret123")).expect("created");
    assert_eq!(response.id, 1);
    assert_eq!(service.next_id(), 2);
}

#[test]
fn service_rejects_taken_email() {
    let mut service = UserService::new(UserRepository::new());
    service.create_user(dto("ali", "ali@example.com", "secret123")).expect("created");
    let err = service.create_user(dto("vali", "ali@example.com", "other")).unwrap_err();
    assert_eq!(err, "Bu email allaqachon ro'yxatdan o'tgan");
    assert_eq!(service.next_id(), 2);
    assert_eq!(service.get_all_users().unwrap().len(), 1);
}

#[test]
fn service_response_omits_password() {
    let mut repo = UserRepository::new();
    repo.create_at("x".to_string(), "x@x.uz".to_string(), "h".to_string(), ts(1, 0));
    let mut service = UserService::new(repo);
    let created = service.create_user_at(dto("ali", "ali@example.com", "secret123"), ts(0, 0)).unwrap();
    let response = service.get_user_by_id(2).unwrap();
    assert_eq!(created.id, 2);
    assert_eq!(response.username, "ali");
    assert_eq!(response.email, "ali@example.com");
    assert!(!format!("{response:?}").contains("secret123"));
}

#[test]
fn repository_stores_given_hash() {
    let mut repo = UserRepository::new();
    let hash = hash_password("secret123");
    repo.create_at("ali".to_string(), "ali@example.com".to_string(), hash, ts(0, 0));
    assert_eq!(repo.find_by_id(1).unwrap().password_hash, "hashed_secret123");
}

#[test]
fn response_from_trait_conversion() {
    let entity = UserEntity {
        id: 3,
        username: "b".to_string(),
        email: "b@x.uz".to_string(),
        password_hash: "hashed_p".to_string(),
        created_at: ts(90_061, 500_000_000),
    };
    let response: UserResponseDto = entity.into();
    assert_eq!(response.id, 3);
    assert_eq!(response.created_at, "1970-01-02 01:01:01.500");
}

#[test]
fn service_taken_email_checked_before_clock() {
    let mut service = UserService::new(UserRepository::new());
    service.create_user_at(dto("a", "a@x.uz", "s"), ts(1, 0)).unwrap();
    assert!(service.is_registered("a@x.uz"));
    assert!(!service.is_registered("b@x.uz"));
    let err = service.create_user(dto("c", "a@x.uz", "s")).unwrap_err();
    assert_eq!(err, "Bu email allaqachon ro'yxatdan o'tgan");
}

#[test]
fn service_get_user_by_id() {
    let mut service = UserService::new(UserRepository::new());
    service.create_user_at(dto("ali", "ali@example.com", "s"), ts(90_061, 500_000_000)).unwrap();
    let found = service.get_user_by_id(1).unwrap();
    assert_eq!(found.username, "ali");
    assert_eq!(found.created_at, "1970-01-02 01:01:01.500");
    assert_eq!(service.get_user_by_id(2).unwrap_err(), "Foydalanuvchi topilmadi");
}

#[test]
fn service_get_all_users() {
    let mut service = UserService::new(UserRepository::new());
    assert!(service.get_all_users().unwrap().is_empty());
    service.create_user_at(dto("a", "a@x.uz", "s"), ts(1, 0)).unwrap();
    service.create_user_at(dto("b", "b@x.uz", "s"), ts(2, 0)).unwrap();
    let mut names: Vec<String> =
        service.get_all_users().unwrap().into_iter().map(|r| r.username).collect();
    names.sort();
    assert_eq!(names, vec!["a".to_string(), "b".to_string()]);
}

#[test]
fn service_delete() {
    let mut service = UserService::new(UserRepository::new());
    service.create_user_at(dto("a", "a@x.uz", "s"), ts(1, 0)).unwrap();
    let removed = service.delete(1).unwrap();
    assert_eq!(removed.username, "a");
    assert_eq!(service.delete(1).unwrap_err(), "Foydalanuvchi topilmadi");
    assert_eq!(service.get_user_by_id(1).unwrap_err(), "Foydalanuvchi topilmadi");
}

#[test]
fn service_email_free_again_after_delete() {
    let mut service = UserService::new(UserRepository::new());
    service.create_user_at(dto("a", "a@x.uz", "s"), ts(1, 0)).unwrap();
    service.delete(1).unwrap();
    let again = service.create_user_at(dto("a2", "a@x.uz", "s"), ts(1, 0)).unwrap();
    assert_eq!(again.id, 2);
}
