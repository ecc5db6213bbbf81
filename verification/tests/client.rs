use taos_ws::client::{Step, Ws};
use taos_ws::descriptor::{Address, Descriptor, DsnError};
use taos_ws::info::Scheme;

#[test]
fn new_client_connects_first() {
    let client = Ws::from_dsn("ws://localhost:6041/").unwrap();
    assert_eq!(client.blocking_step(), Step::Connect);
    assert_eq!(client.streaming_step(), Step::Connect);
    let info = client.connect_info().unwrap();
    assert_eq!(info.scheme(), Scheme::Ws);
    assert_eq!(info.to_query_url(), "ws://localhost:6041/rest/ws");
}

#[test]
fn first_published_session_is_kept() {
    let client = Ws::from_dsn("ws://localhost:6041/").unwrap();
    assert_eq!(client.publish_blocking(7), 7);
    assert_eq!(client.blocking_step(), Step::Use(7));
    assert_eq!(client.publish_blocking(8), 7);
    assert_eq!(client.blocking_step(), Step::Use(7));
    assert_eq!(client.blocking_step(), Step::Use(7));
}

#[test]
fn slots_are_independent() {
    let client = Ws::from_dsn("wss://localhost:6041/").unwrap();
    assert_eq!(client.publish_streaming(3), 3);
    assert_eq!(client.blocking_step(), Step::Connect);
    assert_eq!(client.streaming_step(), Step::Use(3));
    assert_eq!(client.publish_blocking(4), 4);
    assert_eq!(client.publish_streaming(5), 3);
    assert_eq!(client.blocking_step(), Step::Use(4));
    assert_eq!(client.streaming_step(), Step::Use(3));
}

#[test]
fn clients_do_not_share_slots() {
    let a = Ws::from_dsn("ws://a:6041/").unwrap();
    let b = Ws::from_dsn("ws://a:6041/").unwrap();
    assert_eq!(a.publish_blocking(1), 1);
    assert_eq!(b.blocking_step(), Step::Connect);
    assert_eq!(b.publish_blocking(2), 2);
    assert_eq!(a.blocking_step(), Step::Use(1));
}

#[test]
fn client_parses_and_resolves_later() {
    let client = Ws::from_dsn("taos://localhost:6030/db").unwrap();
    assert_eq!(
        client.connect_info().unwrap_err(),
        DsnError::InvalidDriver("taos://localhost:6030/db".to_string())
    );
    assert!(matches!(
        Ws::from_dsn("not a descriptor"),
        Err(DsnError::Malformed(_))
    ));
    assert!(matches!(
        Ws::from_dsn("ws://%ff"),
        Err(DsnError::UnsupportedEscape(_))
    ));
    assert!(Ws::from_dsn("ws://root:%e6%b6%9b@localhost").is_ok());
}

#[test]
fn client_of_a_parsed_descriptor() {
    let d = Descriptor {
        driver: "https".to_string(),
        addresses: vec![Address::Host {
            host: Some("db".to_string()),
            port: Some(443),
        }],
        params: vec![("token".to_string(), "t".to_string())],
        ..Descriptor::default()
    };
    let client = Ws::from_descriptor(d);
    assert_eq!(
        client.connect_info().unwrap().to_tmq_url(),
        "wss://db:443/rest/tmq?token=t"
    );
    assert_eq!(client.blocking_step(), Step::Connect);
}

#[test]
fn later_publishers_get_the_first_session() {
    let client = Ws::from_dsn("ws://localhost:6041/").unwrap();
    let mut sessions = Vec::new();
    for id in 1..=8u64 {
        sessions.push(match client.blocking_step() {
            Step::Use(session) => session,
            Step::Connect => client.publish_blocking(id),
        });
        sessions.push(client.publish_blocking(id + 100));
    }
    assert!(sessions.iter().all(|s| *s == 1));
    assert_eq!(client.blocking_step(), Step::Use(1));
}
