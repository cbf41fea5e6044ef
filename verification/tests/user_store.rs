use decafo::domain::user::create_user;
use decafo::domain::user::entity::{
    Timestamp, UserAvatar, UserEntity, UserId, UserLogin, UserName, STORE_OFFSET_SECONDS,
};
use decafo::domain::user::fetch_one_user;
use decafo::domain::user::update_user;
use decafo::repositories::user::{
    FetchOneError, InMemoryRepository, InsertError, Repository, UpdateError,
};

fn kent(now: u64) -> UserEntity {
    UserEntity::new(
        UserId::one(),
        UserLogin::kent_back(),
        UserName::kent_back(),
        UserAvatar::user(),
        Timestamp::at(now),
    )
}

fn create_request(id: i64, login: UserLogin, name: String) -> create_user::Request {
    create_user::Request { id, login: String::from(login), name, avatar_url: String::from("") }
}

#[test]
fn it_should_be_return_a_bad_request() {
    let mut repo = InMemoryRepository::new();
    let req = create_request(443, UserLogin::kent_back(), UserName::bad());

    let res = create_user::execute(&mut repo, req, Timestamp::at(1));

    match res {
        Err(create_user::Error::BadRequest) => {}
        _ => unreachable!(),
    }
    assert_eq!(repo.len(), 0);
}

#[test]
fn it_should_be_return_a_bad_request_for_an_empty_avatar() {
    let mut repo = InMemoryRepository::new();
    let req = create_request(443, UserLogin::kent_back(), String::from(UserName::kent_back()));

    let res = create_user::execute(&mut repo, req, Timestamp::at(1));

    assert!(matches!(res, Err(create_user::Error::BadRequest)));
    assert_eq!(repo.len(), 0);
}

#[test]
fn it_should_be_return_a_user() {
    let mut repo = InMemoryRepository::new();
    let req = create_user::Request {
        id: 443,
        login: String::from(UserLogin::kent_back()),
        name: String::from(UserName::kent_back()),
        avatar_url: String::from(UserAvatar::user()),
    };

    let res = create_user::execute(&mut repo, req, Timestamp::at(1));

    match res {
        Ok(res) => {
            assert_eq!(res.name, String::from(UserName::kent_back()));
            assert_eq!(res.email, None);
        }
        _ => unreachable!(),
    }
    assert_eq!(repo.len(), 1);
}

#[test]
fn create_user_rejects_each_invalid_value() {
    let valid = || create_user::Request {
        id: 1,
        login: "l".to_string(),
        name: "n".to_string(),
        avatar_url: "a".to_string(),
    };
    let mut repo = InMemoryRepository::new();
    let now = Timestamp::at(1);
    let bad_id = create_user::Request { id: -1, ..valid() };
    assert!(matches!(create_user::execute(&mut repo, bad_id, now), Err(create_user::Error::BadRequest)));
    let big_id = create_user::Request { id: 2_147_483_648, ..valid() };
    assert!(matches!(create_user::execute(&mut repo, big_id, now), Err(create_user::Error::BadRequest)));
    let bad_login = create_user::Request { login: String::new(), ..valid() };
    assert!(matches!(
        create_user::execute(&mut repo, bad_login, now),
        Err(create_user::Error::BadRequest)
    ));
    let bad_name = create_user::Request { name: String::new(), ..valid() };
    assert!(matches!(create_user::execute(&mut repo, bad_name, now), Err(create_user::Error::BadRequest)));
    assert_eq!(repo.len(), 0);
    assert!(create_user::execute(&mut repo, valid(), now).is_ok());
    assert_eq!(repo.len(), 1);
}

#[test]
fn create_user_reports_a_conflict_and_a_failing_store() {
    let request = || create_user::Request {
        id: 443,
        login: "kent-back".to_string(),
        name: "Kent".to_string(),
        avatar_url: "https://a/k".to_string(),
    };
    let mut repo = InMemoryRepository::new();
    assert!(create_user::execute(&mut repo, request(), Timestamp::at(1)).is_ok());
    assert!(matches!(
        create_user::execute(&mut repo, request(), Timestamp::at(2)),
        Err(create_user::Error::Conflict)
    ));
    assert_eq!(repo.len(), 1);
    let mut failing = InMemoryRepository::new().with_error();
    assert!(matches!(
        create_user::execute(&mut failing, request(), Timestamp::at(3)),
        Err(create_user::Error::Unknown)
    ));
    assert_eq!(failing.len(), 0);
}

#[test]
fn create_user_respond_names_each_outcome() {
    let told = create_user::respond(Ok(kent(7))).unwrap();
    assert_eq!(told.name, "kent back");
    assert_eq!(told.email, None);
    assert!(matches!(
        create_user::respond(Err(InsertError::Conflict)),
        Err(create_user::Error::Conflict)
    ));
    assert!(matches!(
        create_user::respond(Err(InsertError::Unknown)),
        Err(create_user::Error::Unknown)
    ));
}

#[test]
fn it_should_be_return_a_not_found_error_when_the_repo_does_not_contain_the_user() {
    let repo = InMemoryRepository::new();
    let req = fetch_one_user::Request { id: i64::from(UserId::two()) };

    let res = fetch_one_user::execute(&repo, req);

    match res {
        Err(fetch_one_user::Error::NotFound) => {}
        _ => unreachable!(),
    }
}

#[test]
fn it_should_be_return_the_user_otherwise() {
    let mut repo = InMemoryRepository::new();
    let _ = repo.insert(kent(1));

    let req = fetch_one_user::Request { id: i64::from(UserId::one()) };

    let res = fetch_one_user::execute(&repo, req);

    match res {
        Ok(res) => {
            assert_eq!(res.name, String::from(UserName::kent_back()));
            assert_eq!(
                res,
                fetch_one_user::Response {
                    id: 443,
                    login: "kent-back".to_string(),
                    name: "kent back".to_string(),
                    avatar_url: "avatar_url".to_string(),
                    email: None,
                }
            );
        }
        _ => unreachable!(),
    };
}

#[test]
fn fetch_one_user_rejects_an_invalid_identifier_and_reports_a_failing_store() {
    let repo = InMemoryRepository::new();
    assert!(matches!(
        fetch_one_user::execute(&repo, fetch_one_user::Request { id: -1 }),
        Err(fetch_one_user::Error::BadRequest)
    ));
    let failing = InMemoryRepository::new().with_error();
    assert!(matches!(
        fetch_one_user::execute(&failing, fetch_one_user::Request { id: 1 }),
        Err(fetch_one_user::Error::Unknown)
    ));
    assert!(matches!(
        fetch_one_user::respond(Err(FetchOneError::NotFound)),
        Err(fetch_one_user::Error::NotFound)
    ));
}

#[test]
fn new_entity_has_no_address_and_both_instants_at_plus_nine_hours() {
    let user = kent(1_000);
    assert_eq!(user.id, 443);
    assert_eq!(user.login, "kent-back");
    assert_eq!(user.name, "kent back");
    assert_eq!(user.avatar_url, "avatar_url");
    assert_eq!(user.email, None);
    assert_eq!(user.created_at, Timestamp { epoch_millis: 1_000, offset_seconds: 32_400 });
    assert_eq!(user.updated_at, user.created_at);
    assert_eq!(STORE_OFFSET_SECONDS, 9 * 3600);
}

#[test]
fn timestamps_compare_by_instant() {
    let early = Timestamp::at(1);
    let late = Timestamp { epoch_millis: 2, offset_seconds: 0 };
    assert!(late.is_after(&early));
    assert!(!early.is_after(&late));
    assert!(!early.is_after(&early));
}

#[test]
fn store_insert_refuses_a_taken_identifier() {
    let mut repo = InMemoryRepository::new();
    assert_eq!(repo.insert(kent(1)).unwrap().id, 443);
    assert_eq!(repo.insert(kent(2)).err(), Some(InsertError::Conflict));
    assert_eq!(repo.len(), 1);
    assert_eq!(repo.get(0).unwrap().created_at, Timestamp::at(1));
    assert!(repo.get(1).is_none());
}

#[test]
fn store_update_writes_name_avatar_and_instant_and_keeps_the_rest() {
    let mut repo = InMemoryRepository::new();
    let _ = repo.insert(kent(1));
    let other = UserEntity::new(
        UserId::two(),
        UserLogin::kent_back(),
        UserName::kent_back(),
        UserAvatar::user(),
        Timestamp::at(1),
    );
    let _ = repo.insert(other);
    let updated =
        repo.update(443, "Kent Beck".to_string(), "https://a/k2".to_string(), Timestamp::at(9)).unwrap();
    assert_eq!(updated.name, "Kent Beck");
    assert_eq!(updated.avatar_url, "https://a/k2");
    assert_eq!(updated.login, "kent-back");
    assert_eq!(updated.created_at, Timestamp::at(1));
    assert_eq!(updated.updated_at, Timestamp::at(9));
    let stored = repo.fetch_one(443).unwrap();
    assert_eq!(stored.name, "Kent Beck");
    assert_eq!(stored.updated_at, Timestamp::at(9));
    let untouched = repo.fetch_one(3000).unwrap();
    assert_eq!(untouched.name, "kent back");
    assert_eq!(untouched.updated_at, Timestamp::at(1));
}

#[test]
fn store_update_of_an_unknown_user_fails() {
    let mut repo = InMemoryRepository::new();
    let res = repo.update(1, "n".to_string(), "a".to_string(), Timestamp::at(1));
    assert_eq!(res.err(), Some(UpdateError::Unknown));
}

#[test]
fn failing_store_answers_unknown_to_insert_and_fetch() {
    let mut repo = InMemoryRepository::new();
    let _ = repo.insert(kent(1));
    let mut repo = repo.with_error();
    assert_eq!(repo.len(), 1);
    assert_eq!(repo.insert(kent(2)).err(), Some(InsertError::Unknown));
    assert_eq!(repo.fetch_one(443).err(), Some(FetchOneError::Unknown));
    assert_eq!(repo.len(), 1);
}

#[test]
fn update_user_succeeds_for_a_stored_user_only() {
    let mut repo = InMemoryRepository::new();
    let _ = repo.insert(kent(1));
    let request = |id: i64, name: &str, avatar: &str| update_user::Request {
        id,
        name: name.to_string(),
        avatar_url: avatar.to_string(),
    };
    assert_eq!(update_user::execute(&mut repo, request(443, "K", "u"), Timestamp::at(2)), Ok(()));
    assert_eq!(repo.fetch_one(443).unwrap().name, "K");
    assert_eq!(update_user::execute(&mut repo, request(7, "K", "u"), Timestamp::at(2)), Err(()));
    assert_eq!(update_user::execute(&mut repo, request(443, "", "u"), Timestamp::at(3)), Err(()));
    assert_eq!(update_user::execute(&mut repo, request(443, "K", ""), Timestamp::at(3)), Err(()));
    assert_eq!(update_user::execute(&mut repo, request(-1, "K", "u"), Timestamp::at(3)), Err(()));
    assert_eq!(repo.fetch_one(443).unwrap().updated_at, Timestamp::at(2));
}

#[test]
fn update_user_check_gives_the_values_of_a_valid_request() {
    let ok = update_user::check(update_user::Request {
        id: 443,
        name: "K".to_string(),
        avatar_url: "u".to_string(),
    })
    .ok()
    .unwrap();
    assert_eq!((ok.id, ok.name.as_str(), ok.avatar_url.as_str()), (443, "K", "u"));
    let bad = update_user::check(update_user::Request {
        id: 2_147_483_648,
        name: "K".to_string(),
        avatar_url: "u".to_string(),
    });
    assert!(bad.is_err());
}
