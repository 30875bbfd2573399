use rays::errors::Error;
use rays::vec3::{split_three, Coordinates, Vec3Text};

fn numbers(text: &Vec3Text) -> (f32, f32, f32) {
    (text.first.parse().unwrap(), text.second.parse().unwrap(), text.third.parse().unwrap())
}

fn three(a: &str, b: &str, c: &str) -> (String, String, String) {
    (a.to_string(), b.to_string(), c.to_string())
}

fn wrong_count(text: &str) -> Error {
    Error::ParseError(text.to_string(), "Must have 3 components.".to_string())
}

#[test]
fn test_from_str() {
    let text = Vec3Text::from_str("4.3, -1, 0").unwrap();
    assert_eq!(text.coordinates, Coordinates::Cartesian);
    assert_eq!((4.3f32, -1.0f32, 0.0f32), numbers(&text));
}

#[test]
fn cartesian_text_keeps_its_numerals() {
    let text = Vec3Text::from_str("4.3, -1, 0").unwrap();
    assert_eq!(
        text,
        Vec3Text {
            coordinates: Coordinates::Cartesian,
            first: "4.3".to_string(),
            second: "-1".to_string(),
            third: "0".to_string(),
        }
    );
}

#[test]
fn cylindrical_text() {
    let text = Vec3Text::from_str("r5, 45.0,  3").unwrap();
    assert_eq!(text.coordinates, Coordinates::Cylindrical);
    assert_eq!(numbers(&text), (5.0, 45.0, 3.0));
}

#[test]
fn spherical_text() {
    let text = Vec3Text::from_str("s3, 45.0, 30.0").unwrap();
    assert_eq!(text.coordinates, Coordinates::Spherical);
    assert_eq!(numbers(&text), (3.0, 45.0, 30.0));
}

#[test]
fn letter_after_white_space_stays_in_the_first_numeral() {
    // The letter is found behind the blank, but only the blank is taken off.
    let text = Vec3Text::from_str(" r5,45,3").unwrap();
    assert_eq!(text.coordinates, Coordinates::Cylindrical);
    assert_eq!(text.first, "r5");
    assert!(text.first.parse::<f32>().is_err());
    let text = Vec3Text::from_str("\u{a0}s1,2,3").unwrap();
    assert_eq!(text.coordinates, Coordinates::Spherical);
    assert_eq!(text.first, "s1");
}

#[test]
fn vector_text_with_wrong_count() {
    assert_eq!(Vec3Text::from_str(""), Err(wrong_count("")));
    assert_eq!(Vec3Text::from_str("1,2"), Err(wrong_count("1,2")));
    assert_eq!(Vec3Text::from_str("1,2,3,4"), Err(wrong_count("1,2,3,4")));
    assert_eq!(Vec3Text::from_str("r"), Err(wrong_count("")));
    assert_eq!(Vec3Text::from_str("r1,2"), Err(wrong_count("1,2")));
    assert_eq!(Vec3Text::from_str("s1;2;3"), Err(wrong_count("1;2;3")));
}

#[test]
fn split_three_trims_each_piece() {
    assert_eq!(split_three("1,2,3"), Ok(three("1", "2", "3")));
    assert_eq!(split_three("  1 ,\t2\n, 3  "), Ok(three("1", "2", "3")));
    assert_eq!(split_three("a b , c  d,e"), Ok(three("a b", "c  d", "e")));
    assert_eq!(split_three("\u{2003}1\u{3000},\u{85}2,3\u{a0}"), Ok(three("1", "2", "3")));
}

#[test]
fn split_three_keeps_empty_pieces() {
    assert_eq!(split_three(",,"), Ok(three("", "", "")));
    assert_eq!(split_three(" , ,"), Ok(three("", "", "")));
    assert_eq!(split_three("1,,3"), Ok(three("1", "", "3")));
}

#[test]
fn split_three_counts_commas() {
    assert_eq!(split_three(""), Err(wrong_count("")));
    assert_eq!(split_three("1"), Err(wrong_count("1")));
    assert_eq!(split_three("1,2"), Err(wrong_count("1,2")));
    assert_eq!(split_three("1,2,3,"), Err(wrong_count("1,2,3,")));
    assert_eq!(split_three(",,,,"), Err(wrong_count(",,,,")));
}

#[test]
fn split_three_agrees_with_split_and_trim() {
    for text in ["4.3, -1, 0", " a,b ,c", "\u{b}x\u{c},\u{1680}y\u{2028},\u{2029}z\u{202f}\u{205f}", "\u{200b}1,2,3", "\u{180e}1,2,3\u{feff}"] {
        let pieces: Vec<&str> = text.split(',').collect();
        assert_eq!(pieces.len(), 3);
        assert_eq!(
            split_three(text),
            Ok(three(pieces[0].trim(), pieces[1].trim(), pieces[2].trim()))
        );
    }
}
