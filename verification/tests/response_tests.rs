use rustychef::errors::ChefError;
use rustychef::response::interpret_response;

#[test]
fn http_500_fails_with_request_failed() {
    let r = interpret_response(500, &b"{\"value\":\"x\"}".to_vec());
    match r {
        Err(e) => assert_eq!(e, ChefError::RequestFailed(500)),
        Ok(_) => panic!("non-success status was accepted"),
    }
}

#[test]
fn http_404_carries_its_code() {
    let r = interpret_response(404, &Vec::new());
    match r {
        Err(e) => assert_eq!(e, ChefError::RequestFailed(404)),
        Ok(_) => panic!("non-success status was accepted"),
    }
}

#[test]
fn http_200_extracts_value_field() {
    let r = interpret_response(200, &b"{\"value\":\"aGVsbG8=\"}".to_vec());
    assert_eq!(r.unwrap(), b"aGVsbG8=".to_vec());
}

#[test]
fn non_json_body_is_malformed() {
    let r = interpret_response(200, &b"not json at all".to_vec());
    match r {
        Err(e) => assert_eq!(e, ChefError::MalformedResponse),
        Ok(_) => panic!("unparsable body was accepted"),
    }
}

#[test]
fn body_without_value_field_is_malformed() {
    let r = interpret_response(200, &b"{\"other\":1}".to_vec());
    match r {
        Err(e) => assert_eq!(e, ChefError::MalformedResponse),
        Ok(_) => panic!("body without the field was accepted"),
    }
}

#[test]
fn numeric_value_is_returned_as_text() {
    let r = interpret_response(204, &b"{\"value\":42}".to_vec());
    assert_eq!(r.unwrap(), b"42".to_vec());
}
