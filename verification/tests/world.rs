use rays::errors::Error;
use rays::world::Worlds;

#[test]
fn worlds_by_name() {
    assert_eq!(Worlds::from_str("threeballs"), Ok(Worlds::ThreeBalls));
    assert_eq!(Worlds::from_str("random"), Ok(Worlds::Random));
}

#[test]
fn worlds_in_any_case() {
    assert_eq!(Worlds::from_str("ThreeBalls"), Ok(Worlds::ThreeBalls));
    assert_eq!(Worlds::from_str("THREEBALLS"), Ok(Worlds::ThreeBalls));
    assert_eq!(Worlds::from_str("Random"), Ok(Worlds::Random));
    assert_eq!(Worlds::from_str("rAnDoM"), Ok(Worlds::Random));
}

#[test]
fn other_names_are_refused() {
    let expected = "Must be 'threeballs' or 'random'.";
    for name in ["", "three balls", "threeballs ", " random", "randomly", "rando", "r\u{e4}ndom"] {
        assert_eq!(
            Worlds::from_str(name),
            Err(Error::ParseError(name.to_string(), expected.to_string()))
        );
    }
}

#[test]
fn worlds_agree_with_unicode_lower_case() {
    for name in ["ThreeBalls", "RANDOM", "\u{212a}", "random\u{130}", "THREE\u{212a}BALLS", "Ra\u{3a3}dom"] {
        let by_unicode = match name.to_lowercase().as_str() {
            "threeballs" => Some(Worlds::ThreeBalls),
            "random" => Some(Worlds::Random),
            _ => None,
        };
        assert_eq!(Worlds::from_str(name).ok(), by_unicode);
    }
}

#[test]
fn worlds_parse_from_text() {
    assert_eq!("Random".parse::<Worlds>(), Ok(Worlds::Random));
    assert_eq!("threeballs".parse::<Worlds>(), Ok(Worlds::ThreeBalls));
    assert_eq!(
        "moon".parse::<Worlds>(),
        Err(Error::ParseError("moon".to_string(), "Must be 'threeballs' or 'random'.".to_string()))
    );
}
