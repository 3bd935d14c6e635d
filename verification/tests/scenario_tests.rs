use rustychef::request::build_request;
use rustychef::response::interpret_response;
use rustychef::store::{get_recipe, get_server, init_db};

#[test]
fn end_to_end_request_from_seeded_store() {
    let store = init_db(":memory:").unwrap();
    let recipe = get_recipe(&store, 1).unwrap();
    let body = build_request(b"hello\n".to_vec(), &recipe).unwrap();
    let expected = b"{\"input\":\"hello\",\"recipe\":[{\"op\":\"To Base64\",\"args\":[\"A-Za-z0-9+/=\"]}],\"outputType\":\"string\"}";
    assert_eq!(body, expected.to_vec());
    let server = get_server(&store, 1).unwrap();
    assert_eq!(server.uri, b"http://localhost:3000/bake".to_vec());
    let reply = interpret_response(200, &b"{\"value\":\"aGVsbG8=\"}".to_vec()).unwrap();
    assert_eq!(reply, b"aGVsbG8=".to_vec());
}
