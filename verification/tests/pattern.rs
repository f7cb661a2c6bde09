use regex::Regex;
use scale_cli::notes::{Accidental, Note, NoteLetter, ParseError};

const NOTE_RE: &str = r"([A-G])([#b]?)(-?\d{0,2})";

const ALPHABET: [char; 11] = ['A', 'C', 'G', 'H', 'a', '#', 'b', '-', '0', '7', ' '];

fn texts_up_to(len: usize) -> Vec<String> {
    let mut all = vec![String::new()];
    let mut last = vec![String::new()];
    for _ in 0..len {
        let mut next = Vec::new();
        for text in &last {
            for c in ALPHABET {
                let mut longer = text.clone();
                longer.push(c);
                next.push(longer);
            }
        }
        all.extend(next.iter().cloned());
        last = next;
    }
    all
}

fn by_pattern(whole: &Regex, text: &str) -> Option<Note> {
    let found = whole.captures(text)?;
    let letter = NoteLetter::from_char(found.get(1)?.as_str().chars().next()?)?;
    let acc = match found.get(2)?.as_str().chars().next() {
        Some(c) => Some(Accidental::from_char(c).ok()?),
        None => None,
    };
    let n = match found.get(3)?.as_str() {
        "" => None,
        number => Some(number.parse::<i8>().ok()?),
    };
    Some(Note { letter, acc, n })
}

#[test]
fn the_pattern_finds_the_three_parts() {
    let whole = Regex::new(&format!("^{}$", NOTE_RE)).unwrap();
    for (text, parts) in [
        ("A#10", ["A", "#", "10"]),
        ("A#-10", ["A", "#", "-10"]),
        ("Ab-4", ["A", "b", "-4"]),
        ("Gb", ["G", "b", ""]),
        ("G", ["G", "", ""]),
        ("G4", ["G", "", "4"]),
    ] {
        let found = whole.captures(text).unwrap();
        assert_eq!(found.get(1).unwrap().as_str(), parts[0]);
        assert_eq!(found.get(2).unwrap().as_str(), parts[1]);
        assert_eq!(found.get(3).unwrap().as_str(), parts[2]);
    }
    assert!(whole.captures("H#").is_none());
}

#[test]
fn reading_agrees_with_the_anchored_pattern() {
    let whole = Regex::new(&format!("^{}$", NOTE_RE)).unwrap();
    let mut accepted = 0;
    for text in texts_up_to(5) {
        let read = Note::from_str(&text);
        match by_pattern(&whole, &text) {
            Some(note) => {
                accepted += 1;
                assert_eq!(read, Ok(note), "{:?}", text);
            }
            None => assert_eq!(read, Err(ParseError::InvalidNote(text.clone())), "{:?}", text),
        }
    }
    // three letters, three accidental choices, and the registers over `-`, `0`, `7`:
    // none, four of one digit or two, and as many again after a minus sign
    assert_eq!(accepted, 3 * 3 * (1 + 2 * (2 + 4)));
}

#[test]
fn a_lone_minus_sign_matches_the_pattern_but_is_no_register() {
    let whole = Regex::new(&format!("^{}$", NOTE_RE)).unwrap();
    for text in ["A-", "A#-", "Gb-"] {
        assert!(whole.is_match(text));
        assert_eq!(
            Note::from_str(text),
            Err(ParseError::InvalidNote(text.to_string()))
        );
    }
}
