use patrie_network::ident::{valid_name, AccountId, AssetId, DomainId, IdError};

#[test]
fn accounts_are_a_name_at_a_domain() {
    let alice = AccountId::parse("alice@wonderland").unwrap();
    assert_eq!(alice.as_str(), "alice@wonderland");
    assert!(alice.same(&AccountId::from_parts("alice", "wonderland").unwrap()));
    assert!(!alice.same(&AccountId::parse("bob@wonderland").unwrap()));
    for text in ["", "alice", "@", "alice@", "@wonderland", "a@b@c", "al ice@wonderland",
        "alice@wonder land", "alice#wonderland", "alice@wonder#land", "a$b@c", "alice@\u{3000}x",
        "ali\tce@w", "a@b\n"]
    {
        assert!(matches!(AccountId::parse(text), Err(IdError::MalformedAccount)), "{:?}", text);
    }
}

#[test]
fn assets_are_a_name_in_a_domain() {
    let usd = AssetId::parse("usd#bank").unwrap();
    assert_eq!(usd.as_str(), "usd#bank");
    assert!(usd.same(&AssetId::from_parts("usd", "bank").unwrap()));
    assert!(!usd.same(&AssetId::parse("usd#central_bank").unwrap()));
    for text in ["", "usd", "#", "usd#", "#bank", "usd#ba#nk", "usd@bank", "us d#bank"] {
        assert!(matches!(AssetId::parse(text), Err(IdError::MalformedAsset)), "{:?}", text);
    }
    assert!(AssetId::parse("diplôme#université").is_ok());
}

#[test]
fn parts_have_to_be_names() {
    assert!(matches!(AccountId::from_parts("", "wonderland"), Err(IdError::MalformedName)));
    assert!(matches!(AccountId::from_parts("alice", ""), Err(IdError::MalformedName)));
    assert!(matches!(AccountId::from_parts("al@ice", "w"), Err(IdError::MalformedName)));
    assert!(matches!(AssetId::from_parts("usd", "ba nk"), Err(IdError::MalformedName)));
    assert!(matches!(AssetId::from_parts("u#sd", "bank"), Err(IdError::MalformedName)));
    assert_eq!(AssetId::from_parts("battery_pack", "tesla").unwrap().as_str(), "battery_pack#tesla");
    assert_eq!(AccountId::from_parts("elon", "tesla").unwrap().as_str(), "elon@tesla");
}

#[test]
fn domains_are_names() {
    let domain = DomainId::parse("central_bank").unwrap();
    assert_eq!(domain.as_str(), "central_bank");
    assert!(domain.same(&DomainId::parse("central_bank").unwrap()));
    assert!(!domain.same(&DomainId::parse("logistics").unwrap()));
    assert!(matches!(DomainId::parse(""), Err(IdError::MalformedName)));
    assert!(matches!(DomainId::parse("central bank"), Err(IdError::MalformedName)));
    assert!(matches!(DomainId::parse("a@b"), Err(IdError::MalformedName)));
}

#[test]
fn names_hold_no_reserved_character() {
    assert!(valid_name("alice"));
    assert!(valid_name("student_01"));
    assert!(valid_name("-4C"));
    assert!(!valid_name(""));
    for reserved in ['@', '#', '$', ' ', '\t', '\n', '\u{0B}', '\u{0C}', '\r', '\u{85}',
        '\u{A0}', '\u{1680}', '\u{2000}', '\u{200A}', '\u{2028}', '\u{2029}', '\u{202F}',
        '\u{205F}', '\u{3000}']
    {
        let text = format!("a{}b", reserved);
        assert!(!valid_name(&text), "{:?}", reserved);
        assert_eq!(valid_name(&text), !(reserved.is_whitespace() || "@#$".contains(reserved)));
    }
    for allowed in ['\u{08}', '\u{0E}', '\u{1F}', '!', '\u{84}', '\u{86}', '\u{200B}', '\u{3001}'] {
        let text = format!("a{}b", allowed);
        assert!(valid_name(&text), "{:?}", allowed);
    }
}

#[test]
fn identities_copy_as_they_are() {
    let alice = AccountId::parse("alice@wonderland").unwrap();
    assert!(alice.clone().same(&alice));
    let usd = AssetId::parse("usd#bank").unwrap();
    assert!(usd.clone().same(&usd));
    let domain = DomainId::parse("bank").unwrap();
    assert!(domain.clone().same(&domain));
}
