use taos_ws::error::{WsError, FAILED};

#[test]
fn local_failure_carries_the_general_code() {
    let e = WsError::new("client pointer is null");
    assert_eq!(FAILED, 0xFFFF);
    assert_eq!(e.code(), 0xFFFF);
    assert_eq!(e.message(), b"client pointer is null");
    assert_eq!(e.errstr(), b"client pointer is null\0");
}

#[test]
fn transport_failure_keeps_code_and_message() {
    let e = WsError::from_transport(0x2600, "Incomplete SQL statement");
    assert_eq!(e.code(), 0x2600);
    assert_eq!(e.message(), b"Incomplete SQL statement");
    assert_eq!(e.errstr(), b"Incomplete SQL statement\0");
}

#[test]
fn message_ends_at_first_zero_byte() {
    let e = WsError::from_transport(1, "ab\0cd\0");
    assert_eq!(e.message(), b"ab");
    assert_eq!(e.errstr(), b"ab\0");
    let e = WsError::from_transport(1, "\0");
    assert_eq!(e.errstr(), b"\0");
}

#[test]
fn empty_message_is_an_empty_c_string() {
    let e = WsError::new("");
    assert_eq!(e.message(), b"");
    assert_eq!(e.errstr(), b"\0");
}

#[test]
fn message_keeps_multibyte_text() {
    let e = WsError::from_transport(-5, "数据库不存在");
    assert_eq!(e.code(), -5);
    assert_eq!(e.message(), "数据库不存在".as_bytes());
}

#[test]
fn duplicate_is_the_same_failure() {
    let e = WsError::from_transport(0x0B, "Unable to establish connection");
    let d = e.duplicate();
    assert_eq!(d.code(), e.code());
    assert_eq!(d.errstr(), e.errstr());
}
