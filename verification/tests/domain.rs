use ferrum::domain::channels::ChannelName;
use ferrum::domain::messages::MessageContent;
use ferrum::domain::servers::ServerName;
use ferrum::domain::users::{password_check_outcome, verify_password_hash, UserEmail, UserName, UserPassword};

fn repeat_x(count: usize) -> String {
    (0..count).map(|_| "x").collect::<String>()
}

#[test]
fn models_name_too_short_is_rejected() {
    for x in ["", "abc"] {
        assert!(ChannelName::parse(x.to_string()).is_err());
    }
    for x in ["", "abc"] {
        assert!(ServerName::parse(x.to_string()).is_err());
    }
    for x in ["", "ab"] {
        assert!(UserName::parse(x.to_string()).is_err());
    }
}

#[test]
fn models_name_too_long_is_rejected() {
    let name = (0..=33).map(|_| "x").collect::<String>();
    assert!(ChannelName::parse(name).is_err());
    let name = (0..=65).map(|_| "x").collect::<String>();
    assert!(ServerName::parse(name).is_err());
    let name = (0..=33).map(|_| "x").collect::<String>();
    assert!(UserName::parse(name).is_err());
}

#[test]
fn models_name_display_trait_implementation_is_valid() {
    let channel_name = ChannelName::parse("foobar".to_string()).unwrap();
    assert_eq!("foobar", channel_name.to_string());
    let server_name = ServerName::parse("foobar".to_string()).unwrap();
    assert_eq!("foobar", server_name.to_string());
    let user_name = UserName::parse("foobar".to_string()).unwrap();
    assert_eq!("foobar", user_name.to_string());
}

#[test]
fn content_to_short_is_rejected() {
    assert!(MessageContent::parse("".to_string()).is_err());
}

#[test]
fn content_too_long_is_rejected() {
    let content = (0..=1001).map(|_| "x").collect::<String>();
    assert!(MessageContent::parse(content).is_err());
}

#[test]
fn content_display_trait_implementation_is_valid() {
    let message_content = MessageContent::parse("foobar".to_string()).unwrap();
    assert_eq!("foobar", message_content.to_string());
}

#[test]
fn models_email_empty_string_is_rejected() {
    assert!(UserEmail::parse("".to_string()).is_err());
}

#[test]
fn models_email_missing_at_symbol_is_rejected() {
    assert!(UserEmail::parse("foobar.com".to_string()).is_err());
}

#[test]
fn models_email_missing_subject_is_rejected() {
    assert!(UserEmail::parse("@bar.com".to_string()).is_err());
}

#[test]
fn models_email_display_trait_implementation_is_valid() {
    let user_email = UserEmail::parse("foo@bar.com".to_string()).unwrap();
    assert_eq!("foo@bar.com", user_email.to_string());
}

#[test]
fn models_password_too_short_is_rejected() {
    for x in ["", "abc", "foobar"] {
        assert!(UserPassword::parse(x.to_string()).is_err());
    }
}

#[test]
fn models_passsword_too_long_is_rejected() {
    let password = (0..=65).map(|_| "x").collect::<String>();
    assert!(UserPassword::parse(password).is_err());
}

#[test]
fn channels_name_too_short_is_rejected() {
    for x in ["", "abc"] {
        assert!(ChannelName::parse(x.to_string()).is_err());
    }
}

#[test]
fn channels_name_too_long_is_rejected() {
    let name = (0..=33).map(|_| "x").collect::<String>();
    assert!(ChannelName::parse(name).is_err());
}

#[test]
fn channels_name_display_trait_implementation_is_valid() {
    let channel_name = ChannelName::parse("foobar".to_string()).unwrap();
    assert_eq!("foobar", channel_name.to_string());
}

#[test]
fn servers_name_too_short_is_rejected() {
    for x in ["", "abc"] {
        assert!(ServerName::parse(x.to_string()).is_err());
    }
}

#[test]
fn servers_name_too_long_is_rejected() {
    let name = (0..=65).map(|_| "x").collect::<String>();
    assert!(ServerName::parse(name).is_err());
}

#[test]
fn servers_name_display_trait_implementation_is_valid() {
    let server_name = ServerName::parse("foobar".to_string()).unwrap();
    assert_eq!("foobar", server_name.to_string());
}

#[test]
fn users_email_empty_string_is_rejected() {
    assert!(UserEmail::parse("".to_string()).is_err());
}

#[test]
fn users_email_missing_at_symbol_is_rejected() {
    assert!(UserEmail::parse("foobar.com".to_string()).is_err());
}

#[test]
fn users_email_missing_subject_is_rejected() {
    assert!(UserEmail::parse("@bar.com".to_string()).is_err());
}

#[test]
fn users_email_display_trait_implementation_is_valid() {
    let user_email = UserEmail::parse("foo@bar.com".to_string()).unwrap();
    assert_eq!("foo@bar.com", user_email.to_string());
}

#[test]
fn users_name_too_short_is_rejected() {
    for x in ["", "ab"] {
        assert!(UserName::parse(x.to_string()).is_err());
    }
}

#[test]
fn users_name_too_long_is_rejected() {
    let name = (0..=33).map(|_| "x").collect::<String>();
    assert!(UserName::parse(name).is_err());
}

#[test]
fn users_name_display_trait_implementation_is_valid() {
    let user_name = UserName::parse("foobar".to_string()).unwrap();
    assert_eq!("foobar", user_name.to_string());
}

#[test]
fn users_password_too_short_is_rejected() {
    for x in ["", "abc", "foobar"] {
        assert!(UserPassword::parse(x.to_string()).is_err());
    }
}

#[test]
fn users_passsword_too_long_is_rejected() {
    let password = (0..=65).map(|_| "x").collect::<String>();
    assert!(UserPassword::parse(password).is_err());
}

#[test]
fn name_length_bounds_are_inclusive() {
    assert!(ChannelName::parse(repeat_x(4)).is_ok());
    assert!(ChannelName::parse(repeat_x(32)).is_ok());
    assert!(ChannelName::parse(repeat_x(33)).is_err());
    assert!(ServerName::parse(repeat_x(64)).is_ok());
    assert!(ServerName::parse(repeat_x(65)).is_err());
    assert!(UserName::parse(repeat_x(3)).is_ok());
    assert!(UserName::parse(repeat_x(32)).is_ok());
    assert!(MessageContent::parse(repeat_x(1)).is_ok());
    assert!(MessageContent::parse(repeat_x(1000)).is_ok());
    assert!(MessageContent::parse(repeat_x(1001)).is_err());
}

#[test]
fn lengths_count_characters_not_bytes() {
    // four characters, eight bytes
    assert!(ChannelName::parse("äöüß".to_string()).is_ok());
    // three characters
    assert!(ChannelName::parse("äöü".to_string()).is_err());
}

#[test]
fn rejection_messages_quote_the_value() {
    assert_eq!(
        ChannelName::parse("abc".to_string()).err().unwrap(),
        "abc is not a valid channel name!"
    );
    assert_eq!(
        MessageContent::parse("".to_string()).err().unwrap(),
        " is not a valid message content!"
    );
    assert_eq!(UserName::parse("ab".to_string()).err().unwrap(), "ab is not a valid user name!");
    assert_eq!(
        UserEmail::parse("foobar.com".to_string()).err().unwrap(),
        "foobar.com is not a valid user email!"
    );
    assert_eq!(UserPassword::parse("abc".to_string()).err().unwrap(), "Invalid user password!");
}

#[test]
fn server_names_are_trimmed() {
    let name = ServerName::parse("  my server \n".to_string()).unwrap();
    assert_eq!(name.as_str(), "my server");
    assert_eq!(
        ServerName::parse("  abc  ".to_string()).err().unwrap(),
        "abc is not a valid server name!"
    );
    let again = ServerName::parse(name.to_string()).unwrap();
    assert_eq!(again.as_str(), "my server");
}

#[test]
fn parsed_password_verifies_and_is_not_the_plain_text() {
    let password = UserPassword::parse("correct horse".to_string()).unwrap();
    let hash = password.as_str().to_string();
    assert_ne!(hash, "correct horse");
    assert_eq!(verify_password_hash(hash.clone(), "correct horse".to_string()), Ok(true));
    assert_eq!(verify_password_hash(hash, "wrong horse".to_string()), Ok(false));
}

#[test]
fn unparsable_hash_is_an_error() {
    assert_eq!(
        verify_password_hash("not a hash".to_string(), "whatever".to_string()),
        Err("Failed to parse password hash.".to_string())
    );
}

#[test]
fn valid_names_parse_back_to_themselves() {
    let channel = ChannelName::parse("general".to_string()).unwrap();
    assert_eq!(ChannelName::parse(channel.to_string()).unwrap().as_str(), channel.as_str());
    let user = UserName::parse("foobar".to_string()).unwrap();
    assert_eq!(UserName::parse(user.to_string()).unwrap().as_str(), "foobar");
    let email = UserEmail::parse("foo@bar.com".to_string()).unwrap();
    assert_eq!(UserEmail::parse(email.to_string()).unwrap().as_str(), "foo@bar.com");
    let content = MessageContent::parse("hello".to_string()).unwrap();
    assert_eq!(MessageContent::parse(content.to_string()).unwrap().as_str(), "hello");
}

#[test]
fn outcome_functions_map_outside_results() {
    assert_eq!(password_check_outcome(Some(true)), Ok(true));
    assert_eq!(password_check_outcome(Some(false)), Ok(false));
    assert_eq!(password_check_outcome(None), Err("Failed to parse password hash.".to_string()));
    assert!(UserPassword::from_hash_result(None).is_err());
    assert!(UserEmail::from_validation("x".to_string(), false).is_err());
    assert_eq!(UserEmail::from_validation("a@b".to_string(), true).unwrap().as_str(), "a@b");
    assert!(ServerName::from_trimmed("abc").is_err());
    assert_eq!(ServerName::from_trimmed("abcd").unwrap().as_str(), "abcd");
}

#[test]
fn unpadded_server_name_parses_to_itself() {
    assert_eq!(ServerName::parse("foobar".to_string()).unwrap().as_str(), "foobar");
    let name = ServerName::parse("\u{3000}\t foo bar\u{a0}\u{2028}".to_string()).unwrap();
    assert_eq!(name.as_str(), "foo bar");
    assert!(ServerName::parse("\u{2003}ab\u{85}".to_string()).is_err());
}

#[test]
fn password_hash_is_a_default_argon2id_phc_string() {
    let first = UserPassword::parse("correct horse".to_string()).unwrap();
    let second = UserPassword::parse("correct horse".to_string()).unwrap();
    assert!(first.as_str().starts_with("$argon2id$v=19$m=19456,t=2,p=1$"));
    assert!(first.as_str().len() >= 79);
    assert_eq!(&first.as_str()[first.as_str().len() - 44..first.as_str().len() - 43], "$");
    assert_ne!(first.as_str(), second.as_str());
}

#[test]
fn hash_not_starting_with_dollar_does_not_parse() {
    for hash in ["", "plain", "argon2id$v=19$m=19456,t=2,p=1$abcd$efgh"] {
        assert_eq!(
            verify_password_hash(hash.to_string(), "whatever".to_string()),
            Err("Failed to parse password hash.".to_string())
        );
    }
}

#[test]
fn valid_passwords_always_hash() {
    for password in ["12345678", "correct horse battery staple", &"y".repeat(64)] {
        let hash = UserPassword::parse(password.to_string()).unwrap();
        assert_eq!(hash.as_str().len(), 97);
        assert_eq!(verify_password_hash(hash.as_str().to_string(), password.to_string()), Ok(true));
    }
}
