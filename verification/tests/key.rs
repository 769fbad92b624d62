use pcloud::key::{key_symbol, rand_key, KEY_LENGTH};

#[test]
fn a_key_has_five_symbols_of_the_alphabet() {
    for _ in 0..200 {
        let key = rand_key();
        assert_eq!(key.chars().count(), KEY_LENGTH);
        assert_eq!(key.len(), 5);
        assert!(key.chars().all(|c| c.is_ascii_uppercase() || c.is_ascii_digit()));
    }
}

#[test]
fn keys_vary() {
    let first = rand_key();
    let mut other = false;
    for _ in 0..50 {
        if rand_key() != first {
            other = true;
        }
    }
    assert!(other);
}

#[test]
fn letters_are_raised_and_the_rest_is_kept() {
    assert_eq!(key_symbol(b'a'), 'A');
    assert_eq!(key_symbol(b'm'), 'M');
    assert_eq!(key_symbol(b'z'), 'Z');
    assert_eq!(key_symbol(b'A'), 'A');
    assert_eq!(key_symbol(b'Q'), 'Q');
    assert_eq!(key_symbol(b'Z'), 'Z');
    assert_eq!(key_symbol(b'0'), '0');
    assert_eq!(key_symbol(b'7'), '7');
    assert_eq!(key_symbol(b'9'), '9');
}

#[test]
fn bytes_beside_the_letters_are_kept() {
    assert_eq!(key_symbol(b'`'), '`');
    assert_eq!(key_symbol(b'{'), '{');
    assert_eq!(key_symbol(b'-'), '-');
    assert_eq!(key_symbol(0), '\0');
    assert_eq!(key_symbol(0xe9), '\u{e9}');
}
