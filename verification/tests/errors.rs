use ble_over_ip::error::{
    proxy_error_text, CharacteristicProxyError, RemoteStatus, RpcError, CODE_INTERNAL,
    CODE_NOT_FOUND, CODE_UNIMPLEMENTED,
};

#[test]
fn status_codes_are_the_grpc_codes() {
    assert_eq!(CODE_NOT_FOUND, 5);
    assert_eq!(CODE_UNIMPLEMENTED, 12);
    assert_eq!(CODE_INTERNAL, 13);
}

#[test]
fn proxy_error_text_has_the_heading() {
    assert_eq!(proxy_error_text("gone"), "received invalid status from proxy: gone");
    assert_eq!(proxy_error_text(""), "received invalid status from proxy: ");
}

#[test]
fn proxy_error_is_described_with_the_printed_status() {
    let error =
        CharacteristicProxyError::new(RemoteStatus::new(5, String::from("no such characteristic")));
    assert_eq!(
        error.describe(),
        "received invalid status from proxy: status: NotFound, message: \"no such characteristic\", details: [], metadata: MetadataMap { headers: {} }"
    );
}

#[test]
fn proxy_error_with_an_unlisted_code_is_printed_as_unknown() {
    let error = CharacteristicProxyError::new(RemoteStatus::new(99, String::new()));
    assert_eq!(
        error.describe(),
        "received invalid status from proxy: status: Unknown, message: \"\", details: [], metadata: MetadataMap { headers: {} }"
    );
}

#[test]
fn status_duplicate_is_equal() {
    let status = RemoteStatus::new(14, String::from("down"));
    assert_eq!(status.duplicate(), status);
    assert_eq!(status.code, 14);
    assert_eq!(status.message, "down");
}

#[test]
fn rpc_errors_travel_under_their_codes() {
    assert_eq!(
        RpcError::NotFound.to_status(),
        RemoteStatus::new(5, String::from("characteristic not found"))
    );
    assert_eq!(
        RpcError::Unsupported.to_status(),
        RemoteStatus::new(12, String::from("operation not supported by the characteristic"))
    );
    assert_eq!(
        RpcError::DeviceError(String::from("write failed")).to_status(),
        RemoteStatus::new(13, String::from("write failed"))
    );
}
