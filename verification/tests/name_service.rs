use mix_fetch::names::{
    is_valid_name_char, parse_nym_address, Address, DepositValue, NameDetails, NameServiceError,
    NymName, RegisteredName,
};

#[test]
fn parse_nym_name() {
    // Test some valid cases
    assert!(NymName::new("foo").is_ok());
    assert!(NymName::new("foo-bar").is_ok());
    assert!(NymName::new("foo-bar-123").is_ok());
    assert!(NymName::new("foo_bar").is_ok());
    assert!(NymName::new("foo_bar_123").is_ok());

    // And now test all some invalid ones
    assert!(NymName::new("Foo").is_err());
    assert!(NymName::new("foo bar").is_err());
    assert!(NymName::new("foo!bar").is_err());
    assert!(NymName::new("foo#bar").is_err());
    assert!(NymName::new("foo$bar").is_err());
    assert!(NymName::new("foo%bar").is_err());
    assert!(NymName::new("foo&bar").is_err());
    assert!(NymName::new("foo'bar").is_err());
    assert!(NymName::new("foo(bar").is_err());
    assert!(NymName::new("foo)bar").is_err());
    assert!(NymName::new("foo*bar").is_err());
    assert!(NymName::new("foo+bar").is_err());
    assert!(NymName::new("foo,bar").is_err());
    assert!(NymName::new("foo.bar").is_err());
    assert!(NymName::new("foo.bar").is_err());
    assert!(NymName::new("foo/bar").is_err());
    assert!(NymName::new("foo/bar").is_err());
    assert!(NymName::new("foo:bar").is_err());
    assert!(NymName::new("foo;bar").is_err());
    assert!(NymName::new("foo<bar").is_err());
    assert!(NymName::new("foo=bar").is_err());
    assert!(NymName::new("foo>bar").is_err());
    assert!(NymName::new("foo?bar").is_err());
    assert!(NymName::new("foo@bar").is_err());
    assert!(NymName::new("fooBar").is_err());
    assert!(NymName::new("foo[bar").is_err());
    assert!(NymName::new("foo\"bar").is_err());
    assert!(NymName::new("foo\\bar").is_err());
    assert!(NymName::new("foo]bar").is_err());
    assert!(NymName::new("foo^bar").is_err());
    assert!(NymName::new("foo`bar").is_err());
    assert!(NymName::new("foo{bar").is_err());
    assert!(NymName::new("foo|bar").is_err());
    assert!(NymName::new("foo}bar").is_err());
    assert!(NymName::new("foo~bar").is_err());
}

#[test]
fn nym_name_keeps_its_text() {
    let name = NymName::new("foo-bar_123").unwrap();
    assert_eq!(name.as_str(), "foo-bar_123");
}

#[test]
fn parse_valid_nym_address() {
    let address = Address::new("client.enckey@gateway").unwrap();
    assert_eq!(address.client_id(), "client");
    assert_eq!(address.client_enc(), "enckey");
    assert_eq!(address.gateway_id(), "gateway");
    assert_eq!(address.event_tag(), "nym_address");
}

#[test]
fn address_renders_back_to_its_source() {
    let source = "alice.key0@gw7";
    let address = Address::new(source).unwrap();
    assert_eq!(address.as_str(), source);
}

#[test]
fn reject_malformed_nym_addresses() {
    // no '@' at all
    assert!(Address::new("client.enckey").is_err());
    // two '@'
    assert!(Address::new("client.enc@gate@way").is_err());
    // no '.' in the client part
    assert!(Address::new("cliententc@gateway").is_err());
    // two '.' in the client part
    assert!(Address::new("client.enc.key@gateway").is_err());
    // '.' in the gateway part
    assert!(Address::new("client.enc@gate.way").is_err());
    // empty string
    assert!(Address::new("").is_err());
}

#[test]
fn invalid_address_error_carries_the_input() {
    match Address::new("not-an-address") {
        Err(NameServiceError::InvalidNymAddress(reported)) => {
            assert_eq!(reported, "not-an-address");
        }
        Ok(_) => panic!("parsing should have failed"),
    }
}

#[test]
fn parse_nym_address_splits_on_the_only_at_sign() {
    let inner = parse_nym_address("a.b@c");
    assert!(inner.is_some());
    assert!(parse_nym_address("a@b@c").is_none());
    assert!(parse_nym_address("abc").is_none());
}

#[test]
fn valid_name_characters_are_exactly_the_allowed_set() {
    assert!(is_valid_name_char('a'));
    assert!(is_valid_name_char('z'));
    assert!(is_valid_name_char('0'));
    assert!(is_valid_name_char('9'));
    assert!(is_valid_name_char('-'));
    assert!(is_valid_name_char('_'));
    assert!(!is_valid_name_char('A'));
    assert!(!is_valid_name_char(' '));
    assert!(!is_valid_name_char('.'));
    assert!(!is_valid_name_char('@'));
}

#[test]
fn registered_name_entry_is_its_name() {
    let name = NymName::new("proxy-one").unwrap();
    let address = Address::new("client.enc@gateway").unwrap();
    let registered = RegisteredName {
        id: 1,
        name: NameDetails {
            name,
            address,
            identity_key: "identity".to_string(),
        },
        owner: "owner".to_string(),
        block_height: 42,
        deposit: DepositValue { amount: 100, denom: "unym".to_string() },
    };
    assert_eq!(registered.entry().as_str(), "proxy-one");
}
