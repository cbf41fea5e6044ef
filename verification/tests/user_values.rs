use decafo::domain::user::entity::{
    parse_address, parse_domain, parse_local_part, split_at, Error, UserAvatar, UserEmail, UserId,
    UserLogin, UserName,
};

#[test]
fn user_id_accepts_zero_and_the_largest() {
    assert_eq!(i64::from(UserId::try_from(0).unwrap()), 0);
    assert_eq!(i64::from(UserId::try_from(2_147_483_647).unwrap()), 2_147_483_647);
}

#[test]
fn user_id_rejects_negative_and_too_large() {
    assert!(UserId::try_from(-1).is_err());
    assert!(UserId::try_from(2_147_483_648).is_err());
    assert!(UserId::try_from(i64::MIN).is_err());
    assert!(UserId::try_from(i64::MAX).is_err());
}

#[test]
fn sample_identifiers() {
    assert_eq!(i64::from(UserId::one()), 443);
    assert_eq!(i64::from(UserId::two()), 3000);
    assert_eq!(UserId::one().get(), 443);
}

#[test]
fn login_name_and_avatar_reject_only_the_empty_string() {
    assert!(UserLogin::try_from(String::new()).is_err());
    assert!(UserName::try_from(String::new()).is_err());
    assert!(UserAvatar::try_from(String::new()).is_err());
    assert_eq!(String::from(UserLogin::try_from(" ".to_string()).unwrap()), " ");
    assert_eq!(String::from(UserName::try_from("Kent".to_string()).unwrap()), "Kent");
    assert_eq!(String::from(UserAvatar::try_from("https://a/k".to_string()).unwrap()), "https://a/k");
}

#[test]
fn sample_values() {
    assert_eq!(String::from(UserLogin::kent_back()), "kent-back");
    assert_eq!(String::from(UserName::kent_back()), "kent back");
    assert_eq!(String::from(UserAvatar::user()), "avatar_url");
    assert_eq!(String::from(UserEmail::gmail()), "test@gmail.com");
    assert_eq!(UserLogin::kent_back().as_str(), "kent-back");
}

#[test]
fn bad_samples_are_rejected() {
    assert!(UserLogin::try_from(UserLogin::bad()).is_err());
    assert!(UserName::try_from(UserName::bad()).is_err());
    assert_eq!(UserEmail::try_from(UserEmail::bad()).err(), Some(Error::EmptyString));
}

#[test]
fn clones_keep_the_value() {
    assert_eq!(UserLogin::kent_back().clone(), UserLogin::kent_back());
    assert_eq!(UserEmail::gmail().clone(), UserEmail::gmail());
}

#[test]
fn email_is_split_at_the_last_separator() {
    assert_eq!(split_at("a@b@c"), Ok(("a@b", "c")));
    assert_eq!(split_at("test@gmail.com"), Ok(("test", "gmail.com")));
    assert_eq!(split_at("@"), Ok(("", "")));
    assert_eq!(split_at("no separator"), Err(Error::MissingSeparator));
    assert_eq!(split_at(""), Err(Error::MissingSeparator));
}

#[test]
fn email_split_keeps_characters_of_several_bytes_whole() {
    assert_eq!(split_at("jos\u{e9}@caf\u{e9}.fr"), Ok(("jos\u{e9}", "caf\u{e9}.fr")));
    assert_eq!(split_at("\u{1f600}@\u{1f600}"), Ok(("\u{1f600}", "\u{1f600}")));
}

#[test]
fn local_part_limits() {
    assert_eq!(parse_local_part(""), Err(Error::EmptyString));
    assert_eq!(parse_local_part(&"a".repeat(64)), Ok(()));
    assert_eq!(parse_local_part(&"a".repeat(65)), Err(Error::LocalPartTooLong));
    // The limit counts bytes: 32 characters of two bytes fit, 33 do not.
    assert_eq!(parse_local_part(&"\u{e9}".repeat(32)), Ok(()));
    assert_eq!(parse_local_part(&"\u{e9}".repeat(33)), Err(Error::LocalPartTooLong));
}

#[test]
fn domain_limits() {
    assert_eq!(parse_domain(""), Err(Error::EmptyString));
    assert_eq!(parse_domain(&"d".repeat(254)), Ok(()));
    assert_eq!(parse_domain(&"d".repeat(255)), Err(Error::DomainTooLong));
}

#[test]
fn email_errors() {
    assert_eq!(UserEmail::try_from(String::new()).err(), Some(Error::EmptyString));
    assert_eq!(UserEmail::try_from("plain".to_string()).err(), Some(Error::MissingSeparator));
    assert_eq!(UserEmail::try_from("@gmail.com".to_string()).err(), Some(Error::EmptyString));
    assert_eq!(UserEmail::try_from("test@".to_string()).err(), Some(Error::EmptyString));
    assert_eq!(
        UserEmail::try_from(format!("{}@gmail.com", "a".repeat(65))).err(),
        Some(Error::LocalPartTooLong)
    );
    assert_eq!(
        UserEmail::try_from(format!("test@{}", "d".repeat(255))).err(),
        Some(Error::DomainTooLong)
    );
    // The local part is looked at first.
    assert_eq!(
        UserEmail::try_from(format!("{}@{}", "a".repeat(65), "d".repeat(255))).err(),
        Some(Error::LocalPartTooLong)
    );
}

#[test]
fn email_is_kept_as_written() {
    let email = UserEmail::try_from("Test@Gmail.com".to_string()).unwrap();
    assert_eq!(String::from(email), "Test@Gmail.com");
    assert_eq!(parse_address("a@b").map(String::from), Ok("a@b".to_string()));
    assert_eq!(parse_address("ab").err(), Some(Error::MissingSeparator));
}

#[test]
fn error_messages() {
    assert_eq!(Error::EmptyString.message(), "Empty String");
    assert_eq!(Error::MissingSeparator.message(), "Missing separator character '@'.");
    assert_eq!(Error::LocalPartTooLong.message(), "Local part is too long. Length limit: 64");
    assert_eq!(Error::DomainTooLong.message(), "Domain is too long. Length limit: 254");
}
