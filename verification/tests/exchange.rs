use lodestone::{Error, LodestoneScraper, Page, Target};

#[derive(Debug, PartialEq)]
struct Character {
    id: u64,
    name: String,
}

#[derive(Debug, PartialEq)]
struct FreeCompany {
    id: u64,
}

/// Stands in for the page parser: a page reads `name=<name>`.
fn parse_character(page: &Page) -> Result<Character, String> {
    let id = page.id().ok_or_else(|| String::from("not a lookup"))?;
    match page.text().strip_prefix("name=") {
        Some(name) => Ok(Character { id, name: name.to_string() }),
        None => Err(String::from("no name on the page")),
    }
}

fn fetch_character(id: u64, status: u16, body: &str) -> Result<Character, Error> {
    let request = LodestoneScraper::default().character(id)?;
    let accepted = request.responded(Ok(status))?;
    let page = accepted.received(Ok(body.to_string()))?;
    let outcome = parse_character(&page);
    page.parsed(outcome)
}

#[test]
fn character_lookup_asks_for_the_character_route() {
    let request = LodestoneScraper::default().character(123).unwrap();
    assert_eq!(request.target(), Target::Character(123));
    assert_eq!(request.url(), "https://na.finalfantasyxiv.com/lodestone/character/123");
}

#[test]
fn free_company_lookup_asks_for_the_free_company_route() {
    let request = LodestoneScraper::default().free_company(9_231_253_336_202_687_179).unwrap();
    assert_eq!(request.target(), Target::FreeCompany(9_231_253_336_202_687_179));
    assert_eq!(
        request.url(),
        "https://na.finalfantasyxiv.com/lodestone/freecompany/9231253336202687179"
    );
}

#[test]
fn character_with_a_well_formed_page_is_returned() {
    let character = fetch_character(123, 200, "name=Foo Bar").unwrap();
    assert_eq!(character, Character { id: 123, name: String::from("Foo Bar") });
}

#[test]
fn fetched_entity_has_the_requested_id() {
    for id in [0, 1, 123, 999_999, u64::MAX] {
        let character = fetch_character(id, 200, "name=X").unwrap();
        assert_eq!(character.id, id);
    }
}

#[test]
fn character_that_does_not_exist_is_not_found() {
    let outcome = fetch_character(999_999, 404, "name=Nobody");
    assert!(matches!(outcome, Err(Error::NotFound)));
}

#[test]
fn not_found_stops_before_the_body() {
    let request = LodestoneScraper::default().character(999_999).unwrap();
    match request.responded(Ok(404)) {
        Err(Error::NotFound) => {}
        other => panic!("expected NotFound, got {:?}", other),
    }
}

#[test]
fn free_company_behind_a_server_error_is_unexpected() {
    let request = LodestoneScraper::default().free_company(1).unwrap();
    match request.responded(Ok(500)) {
        Err(Error::UnexpectedResponse(status)) => assert_eq!(status, 500),
        other => panic!("expected UnexpectedResponse, got {:?}", other),
    }
}

#[test]
fn every_other_status_is_reported_as_it_is() {
    for status in [0u16, 100, 199, 201, 204, 301, 302, 400, 403, 405, 500, 503, 999, u16::MAX] {
        let request = LodestoneScraper::default().character(5).unwrap();
        match request.responded(Ok(status)) {
            Err(Error::UnexpectedResponse(reported)) => assert_eq!(reported, status),
            other => panic!("expected UnexpectedResponse({}), got {:?}", status, other),
        }
    }
}

#[test]
fn status_200_goes_on_to_the_body() {
    let request = LodestoneScraper::default().free_company(8).unwrap();
    let accepted = request.responded(Ok(200)).unwrap();
    assert_eq!(accepted.target(), Target::FreeCompany(8));
    let page = accepted.received(Ok(String::from("<html></html>"))).unwrap();
    assert_eq!(page.target(), Target::FreeCompany(8));
    assert_eq!(page.id(), Some(8));
    assert_eq!(page.text(), "<html></html>");
    let outcome: Result<FreeCompany, Error> = page.parsed(Ok(FreeCompany { id: 8 }));
    assert_eq!(outcome.unwrap(), FreeCompany { id: 8 });
}

#[test]
fn failure_to_send_is_a_network_error() {
    let request = LodestoneScraper::default().character(1).unwrap();
    match request.responded(Err(String::from("connection refused"))) {
        Err(Error::Net(cause)) => assert_eq!(cause, "connection refused"),
        other => panic!("expected Net, got {:?}", other),
    }
}

#[test]
fn failure_to_read_the_body_is_a_network_error() {
    let request = LodestoneScraper::default().character(1).unwrap();
    let accepted = request.responded(Ok(200)).unwrap();
    match accepted.received(Err(String::from("timed out"))) {
        Err(Error::Net(cause)) => assert_eq!(cause, "timed out"),
        other => panic!("expected Net, got {:?}", other),
    }
}

#[test]
fn page_of_another_shape_is_a_parse_error() {
    match fetch_character(123, 200, "<html>maintenance</html>") {
        Err(Error::Parse(message)) => assert_eq!(message, "no name on the page"),
        other => panic!("expected Parse, got {:?}", other),
    }
}
