use upper_echo::ascii::{eq_ignore_case, has_token, separates, to_lower};

#[test]
fn capitals_are_folded() {
    assert_eq!(to_lower(b'A'), b'a');
    assert_eq!(to_lower(b'M'), b'm');
    assert_eq!(to_lower(b'Z'), b'z');
}

#[test]
fn other_bytes_are_not_folded() {
    assert_eq!(to_lower(b'a'), b'a');
    assert_eq!(to_lower(b'z'), b'z');
    assert_eq!(to_lower(b'@'), b'@');
    assert_eq!(to_lower(b'['), b'[');
    assert_eq!(to_lower(b'0'), b'0');
    assert_eq!(to_lower(0), 0);
    assert_eq!(to_lower(0xc4), 0xc4);
    assert_eq!(to_lower(0xff), 0xff);
}

#[test]
fn folding_agrees_with_the_standard_library() {
    for b in 0..=255u8 {
        assert_eq!(to_lower(b), b.to_ascii_lowercase());
    }
}

#[test]
fn space_and_comma_separate() {
    assert!(separates(b' '));
    assert!(separates(b','));
    assert!(!separates(b'\t'));
    assert!(!separates(b';'));
    assert!(!separates(b'a'));
}

#[test]
fn equal_up_to_case() {
    assert!(eq_ignore_case(b"websocket", b"websocket"));
    assert!(eq_ignore_case(b"WebSocket", b"websocket"));
    assert!(eq_ignore_case(b"WEBSOCKET", b"wEbSoCkEt"));
    assert!(eq_ignore_case(b"", b""));
}

#[test]
fn different_texts_are_not_equal() {
    assert!(!eq_ignore_case(b"websocket", b"websockets"));
    assert!(!eq_ignore_case(b"websocket", b"websocke"));
    assert!(!eq_ignore_case(b"websocket", b"webs0cket"));
    assert!(!eq_ignore_case(b"", b"a"));
    assert!(!eq_ignore_case(b"@", b"`"));
    assert!(!eq_ignore_case(b"[", b"{"));
}

#[test]
fn single_token_is_found() {
    assert!(has_token(b"Upgrade", b"Upgrade"));
    assert!(has_token(b"upgrade", b"Upgrade"));
    assert!(has_token(b"UPGRADE", b"Upgrade"));
}

#[test]
fn token_is_found_among_others() {
    assert!(has_token(b"keep-alive, Upgrade", b"Upgrade"));
    assert!(has_token(b"Upgrade, keep-alive", b"Upgrade"));
    assert!(has_token(b"keep-alive,upgrade,close", b"Upgrade"));
    assert!(has_token(b"a b upgrade c", b"Upgrade"));
    assert!(has_token(b" ,, Upgrade ,", b"Upgrade"));
}

#[test]
fn part_of_a_longer_member_is_no_token() {
    assert!(!has_token(b"Upgrades", b"Upgrade"));
    assert!(!has_token(b"NoUpgrade", b"Upgrade"));
    assert!(!has_token(b"keep-alive, Upgrade-Insecure", b"Upgrade"));
    assert!(!has_token(b"Up grade", b"Upgrade"));
    assert!(!has_token(b"Upgrade;q=1", b"Upgrade"));
    assert!(!has_token(b"keep-alive\tUpgrade", b"Upgrade"));
}

#[test]
fn missing_token_is_not_found() {
    assert!(!has_token(b"", b"Upgrade"));
    assert!(!has_token(b"keep-alive", b"Upgrade"));
    assert!(!has_token(b"close, keep-alive", b"Upgrade"));
    assert!(!has_token(b", ,", b"Upgrade"));
}

#[test]
fn empty_token_matches_an_empty_member() {
    assert!(has_token(b"", b""));
    assert!(has_token(b"a,,b", b""));
    assert!(has_token(b"a,", b""));
    assert!(!has_token(b"a,b", b""));
}
