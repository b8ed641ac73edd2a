use spotipi::params::{form_decode, get_param, key_value, parse_form};

#[test]
fn form_decode_handles_escapes_and_plus() {
    assert_eq!(form_decode(b"plain"), b"plain".to_vec());
    assert_eq!(form_decode(b"a+b"), b"a b".to_vec());
    assert_eq!(form_decode(b"a%20b"), b"a b".to_vec());
    assert_eq!(form_decode(b"%41%6eNa"), b"AnNa".to_vec());
    // a percent without two digits after it stays as it is
    assert_eq!(form_decode(b"100%"), b"100%".to_vec());
    assert_eq!(form_decode(b"%zz"), b"%zz".to_vec());
    assert_eq!(form_decode(b""), b"".to_vec());
}

#[test]
fn key_value_splits_at_first_equals() {
    assert_eq!(key_value(b"a=b"), (b"a".to_vec(), b"b".to_vec()));
    assert_eq!(key_value(b"a=b=c"), (b"a".to_vec(), b"b=c".to_vec()));
    assert_eq!(key_value(b"bare"), (b"bare".to_vec(), b"".to_vec()));
    assert_eq!(key_value(b"=v"), (b"".to_vec(), b"v".to_vec()));
}

#[test]
fn parse_form_keeps_order_and_decodes() {
    let pairs = parse_form(b"action=addUser&userName=a%20user&x=1%3d2");
    assert_eq!(pairs.len(), 3);
    assert_eq!(pairs[0], (b"action".to_vec(), b"addUser".to_vec()));
    assert_eq!(pairs[1], (b"userName".to_vec(), b"a user".to_vec()));
    assert_eq!(pairs[2], (b"x".to_vec(), b"1=2".to_vec()));
}

#[test]
fn get_param_returns_the_first_match() {
    let pairs = parse_form(b"k=first&k=second&other=x");
    assert_eq!(get_param(&pairs, b"k"), Some(b"first".to_vec()));
    assert_eq!(get_param(&pairs, b"other"), Some(b"x".to_vec()));
    assert_eq!(get_param(&pairs, b"missing"), None);
}
