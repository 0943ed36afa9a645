use kolloquy::codec::{encode_bytes, ID_ALPHABET};
use kolloquy::ident::{
    id_from_groups, push_mixed, random_session_id, random_user_id, session_id_from, user_id_from,
    web_random_text,
};
use std::collections::HashSet;

#[test]
fn rand_user_ids() {
    let mut prev = vec![];

    for _ in 0..10 {
        let id = random_user_id(64).expect("randomness");

        if prev.contains(&id) {
            panic!("Duplicates detected.")
        }

        println!("{id}");

        prev.push(id);
    }
}

#[test]
fn rand_session_ids() {
    let mut prev = HashSet::new();

    for _ in 0..100_000 {
        let id = random_session_id().expect("randomness");

        if prev.contains(&id) {
            panic!("Duplicates detected.")
        }

        prev.insert(id);
    }
}

#[test]
fn user_ids_have_two_letters_two_digits_three_letters() {
    for _ in 0..20 {
        let id = random_user_id(64).expect("randomness");
        let chars: Vec<char> = id.chars().collect();
        assert_eq!(chars.len(), 7);
        for i in [0, 1, 4, 5, 6] {
            assert!(chars[i].is_ascii_lowercase(), "{id}");
        }
        for i in [2, 3] {
            assert!(chars[i].is_ascii_digit(), "{id}");
        }
    }
    assert!(random_user_id(0).is_none());
}

#[test]
fn user_id_is_picked_from_the_text() {
    assert_eq!(user_id_from("ab12cde"), Some("ab12cde".to_string()));
    assert_eq!(user_id_from("XaYb+1/2ZcQdRe99"), Some("ab12cde".to_string()));
    assert_eq!(user_id_from("a1b2c3d4e5f6g7"), Some("ab23def".to_string()));
    assert_eq!(user_id_from("ABCDEFG1234"), None);
    assert_eq!(user_id_from("ab12cd"), None);
    assert_eq!(user_id_from(""), None);
}

#[test]
fn groups_behind_the_first_are_joined() {
    let groups = vec![
        Some("whole".to_string()),
        Some("a".to_string()),
        Some("b".to_string()),
        Some("1".to_string()),
    ];
    assert_eq!(id_from_groups(&groups), Some("ab1".to_string()));
    let with_gap = vec![Some("whole".to_string()), Some("a".to_string()), None];
    assert_eq!(id_from_groups(&with_gap), None);
    assert_eq!(id_from_groups(&vec![Some("whole".to_string())]), None);
    assert_eq!(id_from_groups(&vec![]), None);
    assert_eq!(id_from_groups(&vec![None, Some("x".to_string())]), Some("x".to_string()));
}

#[test]
fn session_id_is_the_first_sixty_four_characters() {
    let text = "x".repeat(63);
    assert_eq!(session_id_from(&text), None);
    let text = format!("{}{}", "a".repeat(64), "b".repeat(24));
    assert_eq!(session_id_from(&text), Some("a".repeat(64)));
    let exact = "q".repeat(64);
    assert_eq!(session_id_from(&exact), Some(exact.clone()));
}

#[test]
fn web_answer_is_cut_at_places_nine_to_fifty_two() {
    let answer: String = (0..60).map(|i| char::from(b'0' + (i % 10) as u8)).collect();
    let cut = web_random_text(&answer).unwrap();
    assert_eq!(cut.len(), 44);
    assert_eq!(cut, answer[9..=52]);
    assert_eq!(web_random_text(&answer[..52]), None);
    assert!(web_random_text(&answer[..53]).is_some());
}

#[test]
fn words_are_folded_and_written_most_significant_byte_first() {
    let mut out = vec![0xaa];
    push_mixed(&mut out, 0x0102030405060708, 0, 0xffff_ffff_ffff_ffff);
    assert_eq!(out, vec![0xaa, 1, 2, 3, 4, 5, 6, 7, 8]);
    let mut out = Vec::new();
    push_mixed(&mut out, 0xff00_0000_0000_0000, 0x0f0f_0000_0000_00ff, 0xff00_0000_0000_000f);
    let want = (0xff00_0000_0000_0000u64 ^ (0x0f0f_0000_0000_00ffu64 & 0xff00_0000_0000_000fu64))
        .to_be_bytes();
    assert_eq!(out, want.to_vec());
    assert_eq!(out, vec![0xf0, 0, 0, 0, 0, 0, 0, 0x0f]);
}

#[test]
fn bytes_are_written_under_the_alphabet_of_ids() {
    assert_eq!(encode_bytes(ID_ALPHABET, &vec![0, 0, 0]), Some("aaaa".to_string()));
    assert_eq!(encode_bytes(ID_ALPHABET, &vec![0xff, 0xff, 0xff]), Some("////".to_string()));
    assert_eq!(encode_bytes(ID_ALPHABET, &vec![0]), Some("aa==".to_string()));
    assert_eq!(encode_bytes(ID_ALPHABET, &vec![]), Some(String::new()));
    // 0xd0 0x00 0x00: first six bits are 52, the digit 1 in this alphabet
    assert_eq!(encode_bytes(ID_ALPHABET, &vec![0xd0, 0, 0]), Some("1aaa".to_string()));
    assert_eq!(encode_bytes("too short", &vec![1, 2, 3]), None);
}

#[test]
fn session_ids_are_written_under_the_alphabet_of_ids() {
    for _ in 0..50 {
        let id = random_session_id().expect("randomness");
        assert_eq!(id.chars().count(), 64);
        assert!(id.chars().all(|c| ID_ALPHABET.contains(c)), "{id}");
    }
}
