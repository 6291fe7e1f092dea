use rbac_user::phc::{has_layout, has_param, has_param_list, has_version, split};

fn pieces(s: &str, sep: u8) -> Vec<String> {
    split(s.as_bytes(), sep)
        .into_iter()
        .map(|p| String::from_utf8(p.to_vec()).unwrap())
        .collect()
}

#[test]
fn split_cuts_at_every_separator() {
    assert_eq!(pieces("a$bc$d", b'$'), vec!["a", "bc", "d"]);
    assert_eq!(pieces("m=1,t=2,p=3", b','), vec!["m=1", "t=2", "p=3"]);
}

#[test]
fn split_of_nothing_is_one_empty_piece() {
    assert_eq!(pieces("", b'$'), vec![""]);
}

#[test]
fn split_without_separator_is_the_whole() {
    assert_eq!(pieces("argon2id", b'$'), vec!["argon2id"]);
}

#[test]
fn split_keeps_empty_pieces() {
    assert_eq!(pieces("$", b'$'), vec!["", ""]);
    assert_eq!(pieces("$a$$b$", b'$'), vec!["", "a", "", "b", ""]);
    assert_eq!(pieces(",,", b','), vec!["", "", ""]);
}

#[test]
fn split_passes_over_multibyte_characters() {
    let parts = split("é$ü".as_bytes(), b'$');
    assert_eq!(parts.len(), 2);
    assert_eq!(parts[0], "é".as_bytes());
    assert_eq!(parts[1], "ü".as_bytes());
}

#[test]
fn version_field() {
    assert!(has_version(b"v=19"));
    assert!(has_version(b"v=1"));
    assert!(!has_version(b"v="));
    assert!(!has_version(b"v"));
    assert!(!has_version(b""));
    assert!(!has_version(b"w=19"));
    assert!(!has_version(b"v:19"));
    assert!(!has_version(b"19"));
}

#[test]
fn single_parameter() {
    assert!(has_param(b"m=19456"));
    assert!(has_param(b"a=b"));
    assert!(!has_param(b"m="));
    assert!(!has_param(b"=19456"));
    assert!(!has_param(b"="));
    assert!(!has_param(b"m"));
    assert!(!has_param(b""));
    assert!(!has_param(b"m=1=2"));
}

#[test]
fn parameter_list() {
    assert!(has_param_list(b"m=19456,t=2,p=1"));
    assert!(has_param_list(b"m=32"));
    assert!(has_param_list(b"m=32,t=2,p=3,keyid=8PDw8A,data=Dw8PDw8P"));
    assert!(!has_param_list(b""));
    assert!(!has_param_list(b"m=32,"));
    assert!(!has_param_list(b",m=32"));
    assert!(!has_param_list(b"m=32,,t=2"));
    assert!(!has_param_list(b"m=32,t"));
}

#[test]
fn layout_of_an_encoded_hash() {
    assert!(has_layout(
        b"$argon2id$v=19$m=19456,t=2,p=1$c29tZXNhbHQ$CTFhFdXPJO1aFaMaO6Mm5c8y7cJHAph8ArZWb2GRPPc"
    ));
    assert!(has_layout(b"$a$v=1$b=c$d$e"));
}

#[test]
fn layout_needs_the_leading_separator() {
    assert!(!has_layout(b"not-a-valid-hash"));
    assert!(!has_layout(b"argon2id$v=19$m=19456,t=2,p=1$c29tZXNhbHQ$aGFzaGhhc2g"));
    assert!(!has_layout(b"x$argon2id$v=19$m=19456,t=2,p=1$c29tZXNhbHQ$aGFzaGhhc2g"));
}

#[test]
fn layout_needs_every_field() {
    assert!(!has_layout(b""));
    assert!(!has_layout(b"$"));
    assert!(!has_layout(b"$argon2id"));
    assert!(!has_layout(b"$argon2id$v=19"));
    assert!(!has_layout(b"$argon2id$v=19$m=19456,t=2,p=1"));
    assert!(!has_layout(b"$argon2id$v=19$m=19456,t=2,p=1$c29tZXNhbHQ"));
    // no version
    assert!(!has_layout(b"$argon2id$m=19456,t=2,p=1$c29tZXNhbHQ$aGFzaGhhc2g"));
    // no parameters
    assert!(!has_layout(b"$argon2id$v=19$c29tZXNhbHQ$aGFzaGhhc2g"));
}

#[test]
fn layout_takes_no_empty_field() {
    assert!(!has_layout(b"$$v=19$m=19456,t=2,p=1$c29tZXNhbHQ$aGFzaGhhc2g"));
    assert!(!has_layout(b"$argon2id$v=$m=19456,t=2,p=1$c29tZXNhbHQ$aGFzaGhhc2g"));
    assert!(!has_layout(b"$argon2id$v=19$$c29tZXNhbHQ$aGFzaGhhc2g"));
    assert!(!has_layout(b"$argon2id$v=19$m=19456,t=2,p=1$$aGFzaGhhc2g"));
    assert!(!has_layout(b"$argon2id$v=19$m=19456,t=2,p=1$c29tZXNhbHQ$"));
}

#[test]
fn layout_takes_no_field_too_many() {
    assert!(!has_layout(
        b"$argon2id$v=19$m=19456,t=2,p=1$c29tZXNhbHQ$aGFzaGhhc2g$more"
    ));
    assert!(!has_layout(b"$argon2id$v=19$m=19456,t=2,p=1$c29tZXNhbHQ$aGFzaGhhc2g$"));
}

#[test]
fn layout_checks_the_parameters() {
    assert!(!has_layout(b"$argon2id$v=19$m=19456,t,p=1$c29tZXNhbHQ$aGFzaGhhc2g"));
    assert!(!has_layout(b"$argon2id$v=19$m=19456,,p=1$c29tZXNhbHQ$aGFzaGhhc2g"));
    assert!(!has_layout(b"$argon2id$v=19$m=19456,t=2,p=$c29tZXNhbHQ$aGFzaGhhc2g"));
}
