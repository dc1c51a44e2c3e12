use tx_generator::text::{decimal_string, envelope, submission_url, wallet_name};

#[test]
fn decimal_string_writes_digits() {
    assert_eq!(decimal_string(0), "0");
    assert_eq!(decimal_string(7), "7");
    assert_eq!(decimal_string(10), "10");
    assert_eq!(decimal_string(1_234_567_890), "1234567890");
    assert_eq!(decimal_string(u128::MAX), u128::MAX.to_string());
}

#[test]
fn wallet_name_joins_key_and_time() {
    assert_eq!(wallet_name("ab12cd34", 0), "ab12cd34_0");
    assert_eq!(wallet_name("ff", 1_500), "ff_1500");
}

#[test]
fn envelope_carries_hex_body() {
    assert_eq!(envelope(&[0x0f, 0xa0, 0x00, 0xff]), "{\"tx_body\":\"0fa000ff\"}");
    assert_eq!(envelope(&[]), "{\"tx_body\":\"\"}");
}

#[test]
fn submission_url_names_the_explorer_endpoint() {
    assert_eq!(
        submission_url("127.0.0.1:8200"),
        "http://127.0.0.1:8200/api/explorer/v1/transactions"
    );
}
