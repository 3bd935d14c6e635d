use rustychef::errors::ChefError;
use rustychef::request::build_request;
use rustychef::store::Recipe;

fn seed_recipe() -> Recipe {
    Recipe {
        pipeline: b"[{\"op\":\"To Base64\",\"args\":[\"A-Za-z0-9+/=\"]}]".to_vec(),
        output_type: b"string".to_vec(),
    }
}

#[test]
fn assembles_exact_body_for_hello() {
    let body = build_request(b"hello\n".to_vec(), &seed_recipe()).unwrap();
    let expected = b"{\"input\":\"hello\",\"recipe\":[{\"op\":\"To Base64\",\"args\":[\"A-Za-z0-9+/=\"]}],\"outputType\":\"string\"}";
    assert_eq!(body, expected.to_vec());
}

#[test]
fn escapes_input_inside_body() {
    let recipe = Recipe {
        pipeline: b"[]".to_vec(),
        output_type: b"string".to_vec(),
    };
    let body = build_request(b"a\"b\\c\r\n".to_vec(), &recipe).unwrap();
    let expected = b"{\"input\":\"a\\\"b\\\\c\",\"recipe\":[],\"outputType\":\"string\"}";
    assert_eq!(body, expected.to_vec());
}

#[test]
fn input_without_terminator_is_kept_whole() {
    let recipe = Recipe {
        pipeline: b"[]".to_vec(),
        output_type: b"number".to_vec(),
    };
    let body = build_request(b"plain".to_vec(), &recipe).unwrap();
    let expected = b"{\"input\":\"plain\",\"recipe\":[],\"outputType\":\"number\"}";
    assert_eq!(body, expected.to_vec());
}

#[test]
fn invalid_utf8_input_is_rejected() {
    let r = build_request(vec![0xffu8, 0xfe], &seed_recipe());
    match r {
        Err(e) => assert_eq!(e, ChefError::InvalidInput),
        Ok(_) => panic!("invalid input was accepted"),
    }
}

#[test]
fn valid_multibyte_utf8_is_accepted() {
    let recipe = Recipe {
        pipeline: b"[]".to_vec(),
        output_type: b"string".to_vec(),
    };
    let body = build_request("caf\u{e9}\n".as_bytes().to_vec(), &recipe).unwrap();
    let mut expected = b"{\"input\":\"caf".to_vec();
    expected.extend_from_slice("\u{e9}".as_bytes());
    expected.extend_from_slice(b"\",\"recipe\":[],\"outputType\":\"string\"}");
    assert_eq!(body, expected);
}
