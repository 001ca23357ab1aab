use ldc::policy::{
    adopt, decoded, fetched_value, initial_value, joined_text, parsed_value, persistable,
    persistable_text, refresh,
};
use ldc::{CacheError, Fetched, IoError};

#[test]
fn decoder_answers_are_classified() {
    assert!(matches!(decoded::<i32, &str>(Ok(3)), Fetched::Value(3)));
    assert!(matches!(decoded::<i32, &str>(Err("bad")), Fetched::Corrupt(why) if why == "bad"));
    assert!(matches!(decoded::<i32, i32>(Err(-4)), Fetched::Corrupt(why) if why == "-4"));
}

#[test]
fn initial_value_is_the_fetched_one_or_the_default() {
    assert_eq!(initial_value(Fetched::Value(9u8)), (9, None));
    assert_eq!(
        initial_value(Fetched::<u8>::Corrupt("why".to_string())),
        (0, Some(CacheError::Decode("why".to_string())))
    );
    assert_eq!(
        initial_value(Fetched::<u8>::Unreadable(IoError::NotFound)),
        (0, Some(CacheError::Io(IoError::NotFound)))
    );
    assert_eq!(
        initial_value(Fetched::<String>::Unreadable(IoError::Other)),
        (String::new(), Some(CacheError::Io(IoError::Other)))
    );
    assert_eq!(initial_value(Fetched::Value(String::from("v"))), (String::from("v"), None));
    assert_eq!(initial_value(Fetched::<Option<u8>>::Corrupt(String::new())).0, None);
}

#[test]
fn fetched_value_reports_what_failed() {
    assert_eq!(fetched_value(Fetched::Value(4)), Ok(4));
    assert_eq!(
        fetched_value(Fetched::<i32>::Unreadable(IoError::PermissionDenied)),
        Err(CacheError::Io(IoError::PermissionDenied))
    );
    assert_eq!(
        fetched_value(Fetched::<i32>::Corrupt("short".to_string())),
        Err(CacheError::Decode("short".to_string()))
    );
}

#[test]
fn refresh_replaces_only_with_a_value() {
    let mut memory = String::from("old");
    assert_eq!(refresh(&mut memory, Fetched::Value(String::from("new"))), Ok(String::from("new")));
    assert_eq!(memory, "new");
    assert_eq!(
        refresh(&mut memory, Fetched::Corrupt("broken".to_string())),
        Err(CacheError::Decode("broken".to_string()))
    );
    assert_eq!(memory, "new");
    assert_eq!(
        refresh(&mut memory, Fetched::Unreadable(IoError::PermissionDenied)),
        Err(CacheError::Io(IoError::PermissionDenied))
    );
    assert_eq!(memory, "new");
}

#[test]
fn persistable_hands_on_the_encoding() {
    assert_eq!(persistable::<&str>(Ok(vec![1, 2])), Ok(vec![1, 2]));
    assert_eq!(persistable::<&str>(Ok(Vec::new())), Ok(Vec::new()));
    assert_eq!(persistable(Err("no encoding")), Err(CacheError::Encode("no encoding".to_string())));
}

#[test]
fn persistable_text_gives_the_bytes_of_the_text() {
    assert_eq!(persistable_text::<&str>(Ok(String::from("{}"))), Ok(vec![b'{', b'}']));
    assert_eq!(persistable_text::<&str>(Ok(String::from("\u{e9}"))), Ok(vec![0xc3, 0xa9]));
    assert_eq!(persistable_text::<&str>(Ok(String::new())), Ok(Vec::new()));
    assert_eq!(persistable_text(Err(1)), Err(CacheError::Encode("1".to_string())));
}

#[test]
fn parsed_value_reports_the_refused_text() {
    assert_eq!(parsed_value("35".to_string(), Some(35)), Ok(35));
    assert_eq!(
        parsed_value::<i32>("3-5".to_string(), None),
        Err(CacheError::Parse("3-5".to_string()))
    );
}

#[test]
fn adopt_takes_over_only_what_was_encoded() {
    let mut memory = 1;
    assert_eq!(adopt(&mut memory, 2, Ok(vec![2])), Ok(vec![2]));
    assert_eq!(memory, 2);
    assert_eq!(
        adopt(&mut memory, 3, Err(CacheError::Encode("no".to_string()))),
        Err(CacheError::Encode("no".to_string()))
    );
    assert_eq!(memory, 2);
}

#[test]
fn joined_text_puts_the_addition_last() {
    assert_eq!(joined_text(&3, &5), "35");
    assert_eq!(joined_text(&String::from("ab"), &String::from("cd")), "abcd");
    assert_eq!(joined_text(&true, &false), "truefalse");
    assert_eq!(joined_text(&-1, &-2), "-1-2");
    assert_eq!(joined_text(&String::new(), &String::new()), "");
}
