use qa_store::{DBError, Identifier};
use sqlx::types::Uuid;

fn is_hex(c: char) -> bool {
    c.is_ascii_digit() || ('a'..='f').contains(&c) || ('A'..='F').contains(&c)
}

fn hyphenated(s: &[char]) -> bool {
    s.len() == 36
        && s.iter().enumerate().all(|(i, &c)| {
            if i == 8 || i == 13 || i == 18 || i == 23 {
                c == '-'
            } else {
                is_hex(c)
            }
        })
}

fn letter(c: char, lower: char) -> bool {
    c == lower || c as u32 + 32 == lower as u32
}

fn taken_by_the_driver(s: &[char]) -> bool {
    let simple = s.len() == 32 && s.iter().all(|&c| is_hex(c));
    let braced = s.len() == 38 && s[0] == '{' && s[37] == '}' && hyphenated(&s[1..37]);
    let urn = s.len() == 45
        && letter(s[0], 'u')
        && letter(s[1], 'r')
        && letter(s[2], 'n')
        && s[3] == ':'
        && letter(s[4], 'u')
        && letter(s[5], 'u')
        && letter(s[6], 'i')
        && letter(s[7], 'd')
        && s[8] == ':'
        && hyphenated(&s[9..45]);
    simple || hyphenated(s) || braced || urn
}

fn expected_value(s: &[char]) -> u128 {
    let mut value: u128 = 0;
    for &c in s.iter().filter(|&&c| is_hex(c)).rev().take(32).collect::<Vec<_>>().iter().rev() {
        value = value.wrapping_mul(16) + c.to_digit(16).unwrap() as u128;
    }
    value
}

fn expected_text(bits: u128) -> String {
    let digits: Vec<char> = "0123456789abcdef".chars().collect();
    let mut text = String::new();
    for k in 0..32u32 {
        if k == 8 || k == 12 || k == 16 || k == 20 {
            text.push('-');
        }
        text.push(digits[((bits >> (4 * (31 - k))) & 15) as usize]);
    }
    text
}

fn agrees(chars: &[char]) {
    let text: String = chars.iter().collect();
    match Identifier::parse(text.clone()) {
        Ok(id) => {
            assert!(hyphenated(chars), "accepted: {}", text);
            assert_eq!(id.bits, expected_value(chars), "value of {}", text);
        }
        Err(DBError::InvalidUUID(value)) => {
            assert!(!hyphenated(chars), "refused: {}", text);
            assert_eq!(value, text);
        }
        Err(other) => panic!("{:?}", other),
    }
    match Uuid::parse_str(&text) {
        Ok(uuid) => {
            assert!(taken_by_the_driver(chars), "taken: {}", text);
            assert_eq!(uuid.as_u128(), expected_value(chars), "value of {}", text);
        }
        Err(_) => assert!(!taken_by_the_driver(chars), "not taken: {}", text),
    }
}

const SUBSTITUTES: [char; 24] = [
    '0', '9', 'a', 'f', 'A', 'F', 'g', 'G', '-', '{', '}', ':', 'u', 'U', 'r', 'N', 'i', 'D', '/',
    '@', '`', ' ', '\u{e9}', '\u{ff10}',
];

const BASES: [&str; 5] = [
    "0123456789abcdefFEDCBA9876543210",
    "01234567-89ab-cdef-FEDC-BA9876543210",
    "{01234567-89ab-cdef-FEDC-BA9876543210}",
    "urn:uuid:01234567-89ab-cdef-FEDC-BA9876543210",
    "URN:UUID:01234567-89ab-cdef-FEDC-BA9876543210",
];

#[test]
fn every_substitution_is_judged_by_the_form() {
    for base in BASES {
        let chars: Vec<char> = base.chars().collect();
        agrees(&chars);
        for i in 0..chars.len() {
            for c in SUBSTITUTES {
                let mut changed = chars.clone();
                changed[i] = c;
                agrees(&changed);
            }
        }
    }
}

#[test]
fn every_insertion_and_removal_is_judged_by_the_form() {
    for base in BASES {
        let chars: Vec<char> = base.chars().collect();
        for i in 0..=chars.len() {
            for c in ['0', 'a', '-', '{', '}', ':', '\u{e9}'] {
                let mut longer = chars.clone();
                longer.insert(i, c);
                agrees(&longer);
            }
            if i < chars.len() {
                let mut shorter = chars.clone();
                shorter.remove(i);
                agrees(&shorter);
            }
        }
    }
}

#[test]
fn wrappings_of_the_other_forms_are_refused() {
    for text in [
        "{0123456789abcdefFEDCBA9876543210}",
        "urn:uuid:0123456789abcdefFEDCBA9876543210",
        "urn:uuid:{01234567-89ab-cdef-FEDC-BA9876543210}",
        "{urn:uuid:01234567-89ab-cdef-FEDC-BA9876543210}",
        "{{01234567-89ab-cdef-FEDC-BA9876543210}}",
        " 01234567-89ab-cdef-FEDC-BA9876543210",
        "01234567-89ab-cdef-FEDC-BA9876543210\n",
        "0x0123456789abcdefFEDCBA98765432",
    ] {
        let chars: Vec<char> = text.chars().collect();
        assert!(!taken_by_the_driver(&chars));
        agrees(&chars);
    }
}

#[test]
fn the_canonical_text_of_many_values() {
    let mut bits: u128 = 0x9e3779b97f4a7c15_f39cc0605cedc834;
    for _ in 0..500 {
        bits = bits.wrapping_mul(0x2360ed051fc65da4_4385df649fccf645).wrapping_add(1442695040888963407);
        let text = Identifier { bits }.to_text();
        assert_eq!(text, expected_text(bits));
        assert_eq!(Identifier::parse(text).unwrap().bits, bits);
        assert_eq!(Identifier::parse(expected_text(bits).to_uppercase()).unwrap().bits, bits);
    }
    for shift in 0..128 {
        let bits = 1u128 << shift;
        assert_eq!(Identifier { bits }.to_text(), expected_text(bits));
        assert_eq!(Identifier::parse(expected_text(bits)).unwrap().bits, bits);
    }
}

#[test]
fn only_the_hyphenated_base_is_an_identifier() {
    for base in BASES {
        let chars: Vec<char> = base.chars().collect();
        assert!(taken_by_the_driver(&chars));
        assert_eq!(Identifier::parse(base.to_string()).is_ok(), chars.len() == 36);
    }
}

#[test]
fn the_library_reads_identifiers_as_the_database_driver_does() {
    for text in [
        "01234567-89ab-cdef-FEDC-BA9876543210",
        "00000000-0000-0000-0000-000000000000",
        "FFFFFFFF-FFFF-FFFF-FFFF-FFFFFFFFFFFF",
    ] {
        let id = Identifier::parse(text.to_string()).unwrap();
        let uuid = Uuid::parse_str(text).unwrap();
        assert_eq!(id.bits, uuid.as_u128());
        assert_eq!(id.to_text(), uuid.to_string());
    }
}

#[test]
fn a_canonical_text_is_written_as_it_was_read() {
    for text in [
        "01234567-89ab-cdef-fedc-ba9876543210",
        "67e55044-10b1-426f-9247-bb680e5fe0c8",
        "00000000-0000-0000-0000-000000000000",
    ] {
        assert_eq!(Identifier::parse(text.to_string()).unwrap().to_text(), text);
    }
    let read = Identifier::parse("ABCDEF01-2345-6789-ABCD-EF0123456789".to_string()).unwrap();
    assert_eq!(read.to_text(), "abcdef01-2345-6789-abcd-ef0123456789");
}
