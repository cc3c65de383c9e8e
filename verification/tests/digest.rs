use guesser_game::digest::{same_text, text_digest};

#[test]
fn digest_of_the_empty_text() {
    assert_eq!(
        text_digest(""),
        "c5d2460186f7233c927e7db2dcc703c0e500b653ca82273b7bfad8045d85a470"
    );
}

#[test]
fn digest_of_abc() {
    assert_eq!(
        text_digest("abc"),
        "4e03657aea45a94fc7d47ba826c8d667c0d1e6e33a64a036ec44f58fa12d6c45"
    );
}

#[test]
fn digest_of_a_lowercase_answer() {
    assert_eq!(
        text_digest("futebol"),
        "44070423f8332ac096181eb2716adf27434ceaaa501c6d4369a6aa0949d71dc0"
    );
}

#[test]
fn digest_tells_case_apart_unless_folded() {
    assert_eq!(
        text_digest("Futebol"),
        "53487bb9f30ff00e49aeb93c6c1b366b55c0d6d6584a6d83fe46edfed1b7c0da"
    );
    assert_ne!(text_digest("Futebol"), text_digest("futebol"));
}

#[test]
fn digest_covers_the_utf8_bytes() {
    assert_eq!(
        text_digest("pés"),
        "fdab012a3d6036725fe14b64f7e1416e7f3d7d87071c9bf299e6f5daa89c490c"
    );
}

#[test]
fn digest_is_64_lowercase_hex_digits() {
    let long = "a longer text than one block of the sponge takes in at once ".repeat(5);
    for text in ["", "a", "futebol", long.as_str()] {
        let digest = text_digest(text);
        assert_eq!(digest.len(), 64);
        assert!(digest.chars().all(|c| c.is_ascii_digit() || ('a'..='f').contains(&c)));
    }
}

#[test]
fn digest_is_a_function_of_the_text() {
    assert_eq!(text_digest("errado"), text_digest("errado"));
    assert_eq!(
        text_digest("errado"),
        "be06fa4fc2c7518bd0ced8cbf4ea5c63a1b8a6609af06e32a201c50a80993f98"
    );
}

#[test]
fn same_text_on_equal_texts() {
    assert!(same_text("", ""));
    assert!(same_text("abc", "abc"));
    assert!(same_text("pés", "pés"));
}

#[test]
fn same_text_on_texts_that_differ() {
    assert!(!same_text("abc", "abd"));
    assert!(!same_text("abc", "xbc"));
    assert!(!same_text("abc", "ab"));
    assert!(!same_text("", "a"));
    assert!(!same_text("abc", "ABC"));
    assert!(!same_text("pes", "pés"));
}
