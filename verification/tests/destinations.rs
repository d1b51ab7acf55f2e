use empire_report_settings::destinations::gather;
use empire_report_settings::entries::split_entries;
use empire_report_settings::error::SettingsError;
use empire_report_settings::settings::Settings;
use sendgrid::v3::Email;

fn settings_with_destinations(list: &str) -> Settings {
    Settings::from_found(
        Some("db1".to_string()),
        Some("sales".to_string()),
        Some("u".to_string()),
        Some("p".to_string()),
        Some("https://hooks.example/log".to_string()),
        Some("SG.key".to_string()),
        Some("Reports".to_string()),
        Some("reports@x.com".to_string()),
        Some(list.to_string()),
    )
    .expect("nine texts make the settings")
}

fn as_json(settings: &Settings) -> Vec<String> {
    settings
        .get_email_destinations()
        .expect("the destinations")
        .iter()
        .map(|email| serde_json::to_string(email).expect("an address serialises"))
        .collect()
}

#[test]
fn two_destinations_come_in_their_order() {
    let settings = settings_with_destinations("a@x.com,b@y.com");
    assert_eq!(settings.email_entries(), vec!["a@x.com", "b@y.com"]);
    assert_eq!(
        as_json(&settings),
        vec![r#"{"email":"a@x.com"}"#, r#"{"email":"b@y.com"}"#]
    );
}

#[test]
fn reversed_list_gives_reversed_destinations() {
    let settings = settings_with_destinations("b@y.com,a@x.com");
    assert_eq!(
        as_json(&settings),
        vec![r#"{"email":"b@y.com"}"#, r#"{"email":"a@x.com"}"#]
    );
}

#[test]
fn one_destination_alone() {
    let settings = settings_with_destinations("a@x.com");
    assert_eq!(as_json(&settings), vec![r#"{"email":"a@x.com"}"#]);
}

#[test]
fn destinations_carry_no_display_name() {
    let settings = settings_with_destinations("a@x.com");
    let destinations = settings.get_email_destinations().expect("the destinations");
    let value = serde_json::to_value(&destinations[0]).expect("an address serialises");
    assert_eq!(value.get("email").and_then(|v| v.as_str()), Some("a@x.com"));
    assert!(value.get("name").is_none());
}

#[test]
fn duplicates_are_kept() {
    let settings = settings_with_destinations("a@x.com,a@x.com");
    assert_eq!(
        as_json(&settings),
        vec![r#"{"email":"a@x.com"}"#, r#"{"email":"a@x.com"}"#]
    );
}

#[test]
fn surrounding_whitespace_is_kept() {
    let settings = settings_with_destinations("a@x.com, b@y.com ");
    assert_eq!(settings.email_entries(), vec!["a@x.com", " b@y.com "]);
}

#[test]
fn empty_entries_are_kept() {
    assert_eq!(settings_with_destinations("").email_entries(), vec![""]);
    assert_eq!(settings_with_destinations("a@x.com,").email_entries(), vec!["a@x.com", ""]);
    assert_eq!(
        settings_with_destinations("a@x.com,,b@y.com").email_entries(),
        vec!["a@x.com", "", "b@y.com"]
    );
}

#[test]
fn the_accessor_hands_each_entry_to_the_address_type() {
    let settings = settings_with_destinations("a@x.com,b@y.com,c@z.org");
    let made: Vec<String> = ["a@x.com", "b@y.com", "c@z.org"]
        .iter()
        .map(|entry| serde_json::to_string(&Email::new(entry)).unwrap())
        .collect();
    assert_eq!(as_json(&settings), made);
}

fn accepted(address: &str) -> Result<Email<'_>, String> {
    Ok(Email::new(address))
}

fn refused(message: &str) -> Result<Email<'static>, String> {
    Err(message.to_string())
}

fn shown(outcome: Result<Vec<Email<'_>>, SettingsError>) -> Result<Vec<String>, SettingsError> {
    outcome.map(|destinations| {
        destinations
            .iter()
            .map(|email| serde_json::to_string(email).expect("an address serialises"))
            .collect()
    })
}

#[test]
fn accepted_entries_are_gathered_in_their_order() {
    let gathered = shown(gather(vec![accepted("a@x.com"), accepted("b@y.com")]));
    assert_eq!(
        gathered.expect("every entry was accepted"),
        vec![r#"{"email":"a@x.com"}"#, r#"{"email":"b@y.com"}"#]
    );
}

#[test]
fn no_entries_give_no_destinations() {
    let gathered = shown(gather(Vec::new()));
    assert!(gathered.expect("nothing was refused").is_empty());
}

#[test]
fn a_refused_entry_fails_the_whole_list() {
    // the rulings on "a@x.com,not-an-address"
    let outcome = gather(vec![accepted("a@x.com"), refused("not-an-address")]);
    match outcome {
        Ok(_) => panic!("a list with a refused entry gave destinations"),
        Err(error) => {
            assert!(matches!(error, SettingsError::EmailAddressError(_)));
            assert!(error.is_email_address_error());
            assert!(!error.is_configuration_error());
            assert_eq!(error.message(), "not-an-address");
        }
    }
}

#[test]
fn a_refused_entry_in_front_fails_the_whole_list() {
    // the rulings on "not-an-address,a@x.com"
    let outcome = gather(vec![refused("not-an-address"), accepted("a@x.com")]);
    match outcome {
        Ok(_) => panic!("a list with a refused entry gave destinations"),
        Err(error) => {
            assert!(error.is_email_address_error());
            assert_eq!(error.message(), "not-an-address");
        }
    }
}

#[test]
fn a_refused_empty_entry_fails_the_whole_list() {
    // the rulings on "a@x.com,"
    let outcome = gather(vec![accepted("a@x.com"), refused("empty entry")]);
    match outcome {
        Ok(_) => panic!("a list with a refused entry gave destinations"),
        Err(error) => {
            assert!(error.is_email_address_error());
            assert_eq!(error.message(), "empty entry");
        }
    }
}

#[test]
fn the_first_refusal_is_the_one_reported() {
    let outcome = gather(vec![
        accepted("a@x.com"),
        refused("first"),
        accepted("b@y.com"),
        refused("second"),
    ]);
    match outcome {
        Ok(_) => panic!("a list with a refused entry gave destinations"),
        Err(error) => assert_eq!(error.message(), "first"),
    }
}

#[test]
fn a_single_refusal_alone_fails() {
    let outcome = gather(vec![refused("not-an-address")]);
    match outcome {
        Ok(_) => panic!("a list with a refused entry gave destinations"),
        Err(error) => assert_eq!(error.message(), "not-an-address"),
    }
}

#[test]
fn split_of_the_empty_text() {
    assert_eq!(split_entries(""), vec![""]);
}

#[test]
fn split_without_separator() {
    assert_eq!(split_entries("a@x.com"), vec!["a@x.com"]);
}

#[test]
fn split_at_each_separator() {
    assert_eq!(split_entries("a,b,c"), vec!["a", "b", "c"]);
}

#[test]
fn split_keeps_empty_entries() {
    assert_eq!(split_entries(","), vec!["", ""]);
    assert_eq!(split_entries("a,"), vec!["a", ""]);
    assert_eq!(split_entries(",a"), vec!["", "a"]);
    assert_eq!(split_entries("a,,b"), vec!["a", "", "b"]);
    assert_eq!(split_entries(",,"), vec!["", "", ""]);
}

#[test]
fn split_trims_nothing() {
    assert_eq!(split_entries(" a , b "), vec![" a ", " b "]);
    assert_eq!(split_entries("a\t,\nb"), vec!["a\t", "\nb"]);
}

#[test]
fn split_counts_characters_not_bytes() {
    assert_eq!(split_entries("é@x.com,ü@y.com"), vec!["é@x.com", "ü@y.com"]);
    assert_eq!(split_entries("日本,語"), vec!["日本", "語"]);
    assert_eq!(split_entries("😀,,😀😀"), vec!["😀", "", "😀😀"]);
}

#[test]
fn split_takes_only_the_comma_as_separator() {
    assert_eq!(split_entries("a;b|c，d"), vec!["a;b|c，d"]);
}

#[test]
fn split_has_one_entry_more_than_commas() {
    for text in ["", "a", ",", "a,b", ",,,", "a,b,c,d,e", "no commas at all"] {
        let commas = text.chars().filter(|c| *c == ',').count();
        assert_eq!(split_entries(text).len(), commas + 1);
    }
}

#[test]
fn split_entries_hold_no_comma() {
    for entry in split_entries("a,b@c,,d e,") {
        assert!(!entry.contains(','));
    }
}

#[test]
fn joining_the_entries_gives_the_text_back() {
    for text in ["", "a", ",", "a,b", ",a,,b,", " a , b ", "é,ü,日本語"] {
        assert_eq!(split_entries(text).join(","), text);
    }
}

#[test]
fn splitting_what_was_joined_gives_the_entries_back() {
    let lists: [&[&str]; 5] = [&[""], &["a"], &["a", "b"], &["", "", ""], &[" a ", "", "é"]];
    for entries in lists {
        assert_eq!(split_entries(&entries.join(",")), entries.to_vec());
    }
}

#[test]
fn split_agrees_with_the_standard_library() {
    for text in ["", "a", ",", "a,b", ",a,,b,", " a , b ", "é,ü,日本語", "a@x.com,not-an-address"] {
        let expected: Vec<&str> = text.split(',').collect();
        assert_eq!(split_entries(text), expected);
    }
}
