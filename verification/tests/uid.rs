use backend::job::generate_uid;
use backend::uid::{uid_from_draws, ALPHABET_SIZE, UID_LENGTH};

#[test]
fn uid_has_nine_characters_and_a_hyphen_in_the_middle() {
    for _ in 0..500 {
        let uid = generate_uid();
        let chars: Vec<char> = uid.chars().collect();
        assert_eq!(chars.len(), 9);
        assert_eq!(UID_LENGTH, 9);
        for (i, c) in chars.iter().enumerate() {
            if i == 4 {
                assert_eq!(*c, '-');
            } else {
                assert!(c.is_ascii_uppercase() || c.is_ascii_digit(), "{}", uid);
            }
        }
    }
}

#[test]
fn uids_vary() {
    let first = generate_uid();
    let mut differs = false;
    for _ in 0..50 {
        if generate_uid() != first {
            differs = true;
        }
    }
    assert!(differs);
}

#[test]
fn token_of_given_draws() {
    assert_eq!(uid_from_draws(&vec![0, 1, 2, 3, 4, 5, 6, 7, 8]), "ABCD-FGHI");
    assert_eq!(uid_from_draws(&vec![35, 26, 25, 0, 0, 0, 34, 27, 10]), "90ZA-A81K");
    assert_eq!(uid_from_draws(&vec![0; 9]), "AAAA-AAAA");
    // the draw at the hyphen's place is not used
    assert_eq!(uid_from_draws(&vec![0, 0, 0, 0, 35, 0, 0, 0, 0]), "AAAA-AAAA");
    assert_eq!(ALPHABET_SIZE, 36);
}
