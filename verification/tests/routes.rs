use lodestone::route::{decimal_string, LODESTONE_URL};
use lodestone::{Error, LodestoneScraper, Target};

#[test]
fn decimal_of_single_digits() {
    assert_eq!(decimal_string(0), "0");
    assert_eq!(decimal_string(7), "7");
    assert_eq!(decimal_string(9), "9");
}

#[test]
fn decimal_of_longer_numbers() {
    assert_eq!(decimal_string(10), "10");
    assert_eq!(decimal_string(123), "123");
    assert_eq!(decimal_string(1_000_000), "1000000");
    assert_eq!(decimal_string(999_999), "999999");
}

#[test]
fn decimal_of_the_largest_number() {
    assert_eq!(decimal_string(u64::MAX), "18446744073709551615");
    assert_eq!(decimal_string(u64::MAX), format!("{}", u64::MAX));
}

#[test]
fn base_url_is_the_north_american_lodestone() {
    assert_eq!(LODESTONE_URL, "https://na.finalfantasyxiv.com/lodestone/");
}

#[test]
fn route_joins_the_path_to_the_base() {
    let url = LodestoneScraper::route("character/123").unwrap();
    assert_eq!(url, "https://na.finalfantasyxiv.com/lodestone/character/123");
}

#[test]
fn route_of_the_empty_path_is_the_base() {
    let url = LodestoneScraper::route("").unwrap();
    assert_eq!(url, "https://na.finalfantasyxiv.com/lodestone/");
}

#[test]
fn route_keeps_a_query_string() {
    let url = LodestoneScraper::route("character/search?name=Foo").unwrap();
    assert_eq!(url, "https://na.finalfantasyxiv.com/lodestone/character/search?name=Foo");
}

#[test]
fn route_is_the_same_when_resolved_twice() {
    let first = LodestoneScraper::route("freecompany/42").unwrap();
    let second = LodestoneScraper::route("freecompany/42").unwrap();
    assert_eq!(first, second);
    let first = LodestoneScraper::route("//");
    let second = LodestoneScraper::route("//");
    assert!(matches!(first, Err(Error::Url(_))));
    assert!(matches!(second, Err(Error::Url(_))));
}

#[test]
fn route_without_a_host_is_a_url_error() {
    match LodestoneScraper::route("//") {
        Err(Error::Url(cause)) => assert_eq!(cause, url::ParseError::EmptyHost),
        other => panic!("expected a URL error, got {:?}", other),
    }
}

#[test]
fn route_with_a_bad_port_is_a_url_error() {
    match LodestoneScraper::route("https://example.com:99999/") {
        Err(Error::Url(cause)) => assert_eq!(cause, url::ParseError::InvalidPort),
        other => panic!("expected a URL error, got {:?}", other),
    }
}

#[test]
fn route_with_a_bad_address_is_a_url_error() {
    match LodestoneScraper::route("http://[:::1]/") {
        Err(Error::Url(cause)) => assert_eq!(cause, url::ParseError::InvalidIpv6Address),
        other => panic!("expected a URL error, got {:?}", other),
    }
}

#[test]
fn target_paths() {
    assert_eq!(Target::Character(123).path_string(), "character/123");
    assert_eq!(Target::FreeCompany(9_231_253_336_202_687_179).path_string(), "freecompany/9231253336202687179");
    assert_eq!(Target::Linkshell(0).path_string(), "linkshell/0");
    assert_eq!(Target::CharacterSearch.path_string(), "character/search");
    assert_eq!(Target::FreeCompanySearch.path_string(), "freecompany/search");
    assert_eq!(Target::LinkshellSearch.path_string(), "linkshell/search");
}

#[test]
fn target_identifiers() {
    assert_eq!(Target::Character(123).id(), Some(123));
    assert_eq!(Target::FreeCompany(1).id(), Some(1));
    assert_eq!(Target::Linkshell(77).id(), Some(77));
    assert_eq!(Target::CharacterSearch.id(), None);
    assert_eq!(Target::FreeCompanySearch.id(), None);
    assert_eq!(Target::LinkshellSearch.id(), None);
}
