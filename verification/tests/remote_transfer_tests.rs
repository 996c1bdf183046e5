use roadrunner::remote_transfer::{
    close_session, handle_client, net_transfer_bind, open_session, read_to_end, TransferError,
};

fn b(s: &str) -> Vec<u8> {
    s.as_bytes().to_vec()
}

#[test]
fn test_net_transfer_bind() {
    let test_payload = b("Hello, zero-copy transfer!");
    let test_address = b("127.0.0.1:39901");

    let session = net_transfer_bind(&test_payload, &test_address);

    let received_data = read_to_end(&session);
    assert_eq!(received_data, test_payload, "Received data does not match expected payload");
}

#[test]
fn test_handle_client() {
    let test_payload = b("Test payload data");

    let mut session = open_session();
    handle_client(&mut session, &test_payload).expect("Failed to handle client transfer");
    close_session(&mut session);

    let received_data = read_to_end(&session);
    assert_eq!(received_data, test_payload, "Data received does not match expected payload");
}

#[test]
fn test_net_fallback_scenario_d() {
    let session = net_transfer_bind(&b("abc"), &b("127.0.0.1:39902"));

    let received = read_to_end(&session);
    assert_eq!(received.len(), 3);
    assert_eq!(received, b("abc"));
}

#[test]
fn test_net_fallback_round_trip_zero_bytes() {
    let session = net_transfer_bind(&b(""), &b("127.0.0.1:39903"));
    assert_eq!(read_to_end(&session), b(""));
}

#[test]
fn test_handle_client_after_close_fails() {
    let mut session = net_transfer_bind(&b("abc"), &b("127.0.0.1:39904"));
    let r = handle_client(&mut session, &b("more"));
    assert_eq!(r, Err(TransferError::StreamClosed));
    // The one-shot message is unchanged.
    assert_eq!(read_to_end(&session), b("abc"));
}
