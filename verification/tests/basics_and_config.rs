use sync_primitives::basics::{
    can_drink, check_age, describe_age, describe_number, get_config_value, get_user_age,
    greeting, longest, plus_one, process_numbers,
};
use sync_primitives::string_utils::{find_first_word, first_word};
use sync_primitives::cache::{str_eq, Cache};
use sync_primitives::config::ConfigBuilder;

#[test]
fn plus_one_adds_inside_option() {
    assert_eq!(plus_one(Some(5)), Some(6));
    assert_eq!(plus_one(None), None);
}

#[test]
fn describe_number_buckets() {
    assert_eq!(describe_number(-3), "negative");
    assert_eq!(describe_number(0), "zero");
    assert_eq!(describe_number(7), "small positive");
    assert_eq!(describe_number(55), "medium positive");
    assert_eq!(describe_number(1000), "large positive");
}

#[test]
fn describe_age_stages() {
    assert_eq!(describe_age(8), "child");
    assert_eq!(describe_age(16), "teenager");
    assert_eq!(describe_age(40), "adult");
    assert_eq!(describe_age(70), "senior");
}

#[test]
fn check_age_grants_and_refuses() {
    assert_eq!(check_age(-1), Err(String::from("Age cannot be negative")));
    assert_eq!(check_age(17), Err(String::from("Must be 18 or older")));
    assert_eq!(check_age(18), Ok(String::from("Access granted")));
}

#[test]
fn user_directory_lookups() {
    assert_eq!(get_user_age(1), Some(25));
    assert_eq!(get_user_age(4), None);
    assert_eq!(can_drink(1), Some(true));
    assert_eq!(can_drink(3), Some(false));
    assert_eq!(can_drink(99), None);
}

#[test]
fn process_numbers_sums_present_values() {
    assert_eq!(process_numbers(vec![Some(1), None, Some(2), Some(3)]), Some(6));
    assert_eq!(process_numbers(vec![None, None]), None);
    assert_eq!(process_numbers(vec![]), None);
    assert_eq!(process_numbers(vec![Some(-5), Some(5)]), Some(0));
}

#[test]
fn greeting_names_or_stranger() {
    assert_eq!(greeting(Some("Alice")), "Hello, Alice!");
    assert_eq!(greeting(None), "Hello, stranger!");
}

#[test]
fn longest_prefers_longer_string() {
    assert_eq!(longest("long string", "short"), "long string");
    assert_eq!(longest("tie", "tie"), "tie");
    assert_eq!(longest("", "x"), "x");
}

#[test]
fn get_config_value_known_and_unknown_keys() {
    assert_eq!(get_config_value("database_url"), Ok(String::from("postgres://localhost")));
    assert_eq!(get_config_value("port"), Ok(String::from("8080")));
    assert_eq!(
        get_config_value("missing"),
        Err(String::from("Config key 'missing' not found"))
    );
}

#[test]
fn first_word_stops_at_plain_space_only() {
    assert_eq!(first_word("hello world"), "hello");
    assert_eq!(first_word("single"), "single");
    assert_eq!(first_word(""), "");
    assert_eq!(first_word(" leading"), "");
    assert_eq!(first_word("a\tb"), "a\tb");
    assert_eq!(first_word("a\nb c"), "a\nb");
}

#[test]
fn find_first_word_skips_leading_whitespace() {
    assert_eq!(find_first_word("  hello world"), Some("hello"));
    assert_eq!(find_first_word("word"), Some("word"));
    assert_eq!(find_first_word("   "), None);
    assert_eq!(find_first_word(""), None);
    assert_eq!(find_first_word("\u{a0}\u{1680}word\u{b}rest"), Some("word"));
}

#[test]
fn example_glob_functions_run() {
    sync_primitives::example_glob::function_a();
    sync_primitives::example_glob::function_b();
    sync_primitives::example_glob::function_c();
}

#[test]
fn config_builder_fills_defaults() {
    let config = ConfigBuilder::new().name("MyApp").version("1.0.0").debug(true).build();
    assert_eq!(config.name, "MyApp");
    assert_eq!(config.version, "1.0.0");
    assert!(config.debug);

    let defaulted = ConfigBuilder::new().build();
    assert_eq!(defaulted.name, "Unnamed");
    assert_eq!(defaulted.version, "0.0.0");
    assert!(!defaulted.debug);
}

#[test]
fn str_eq_compares_contents() {
    assert!(str_eq("hello", "hello"));
    assert!(!str_eq("hello", "hellp"));
    assert!(!str_eq("hello", "hell"));
    assert!(str_eq("", ""));
}

#[test]
fn cache_inserts_and_gets() {
    let mut cache = Cache::new();
    assert_eq!(cache.len(), 0);
    assert_eq!(cache.get("key0"), None);
    cache.insert(String::from("key0"), String::from("value0"));
    cache.insert(String::from("key1"), String::from("value1"));
    assert_eq!(cache.len(), 2);
    assert_eq!(cache.get("key0"), Some(String::from("value0")));
    assert_eq!(cache.get("key1"), Some(String::from("value1")));
    assert_eq!(cache.get("key2"), None);
}

#[test]
fn cache_insert_overwrites_existing_key() {
    let mut cache = Cache::new();
    cache.insert(String::from("k"), String::from("old"));
    cache.insert(String::from("k"), String::from("new"));
    assert_eq!(cache.len(), 1);
    assert_eq!(cache.get("k"), Some(String::from("new")));
}
