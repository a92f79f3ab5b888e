use std::time::Duration;

use resonate::error::Error;
use resonate::json::Json;
use resonate::sqlite::address::{
    is_valid_address, parse_address, route_url, Address, PollAddress, PollCast, UrlParts,
};
use resonate::sqlite::network::{
    deliver, deliver_to, execute_json, route_outgoing, unblock_json, undecodable_request, Message,
    SqliteBackend, SqliteNetwork, SqliteServer,
};
use resonate::sqlite::persistence::{OutgoingExecute, OutgoingUnblock, StorageError};
use resonate::sqlite::processing::TimeoutStage;
use resonate::sqlite::server::Config;
use resonate::sqlite::types::{PromiseRecord, PromiseState, Value};
use resonate::string_map::StringMap;

fn text(s: &str) -> String {
    s.to_string()
}

fn server(config: Config) -> SqliteServer<u8> {
    match SqliteServer::open_backend(Ok(7u8), config) {
        Ok(server) => server,
        Err(e) => panic!("{:?}", e),
    }
}

fn net(server: &mut SqliteServer<u8>, pid: &str, group: &str) -> SqliteNetwork {
    server.connect(Some(text(pid)), Some(text(group)), text("unused"))
}

// Addresses

#[test]
fn addresses_are_parsed_by_scheme() {
    match parse_address("poll://uni@default/worker-1") {
        Some(Address::Poll(p)) => {
            assert_eq!(p.cast, PollCast::Uni);
            assert_eq!(p.group, "default");
            assert_eq!(p.id.as_deref(), Some("worker-1"));
        }
        other => panic!("{:?}", other),
    }
    match parse_address("poll://any@default") {
        Some(Address::Poll(p)) => {
            assert_eq!(p.cast, PollCast::Any);
            assert_eq!(p.group, "default");
            assert_eq!(p.id, None);
        }
        other => panic!("{:?}", other),
    }
    match parse_address("https://example.com/hook?x=1") {
        Some(Address::Http(h)) => assert_eq!(h.url, "https://example.com/hook?x=1"),
        other => panic!("{:?}", other),
    }
    match parse_address("gcps://project/topic") {
        Some(Address::Gcps(g)) => {
            assert_eq!(g.project, "project");
            assert_eq!(g.topic, "topic");
        }
        other => panic!("{:?}", other),
    }
    assert!(matches!(parse_address("bash://docker/image"), Some(Address::Bash(_))));
    assert!(matches!(parse_address("HTTP://Example.com"), Some(Address::Http(_))));
}

#[test]
fn addresses_that_cannot_be_routed_are_invalid() {
    for address in [
        "",
        "worker",
        "poll://default/worker",
        "poll://all@default",
        "poll:default",
        "gcps://project",
        "gcps://project/",
        "ftp://example.com",
        "http://",
    ] {
        assert!(!is_valid_address(address), "accepted {:?}", address);
        assert!(parse_address(address).is_none());
    }
    for address in ["http://a", "poll://any@g", "poll://uni@g/p", "gcps://p/t", "bash://"] {
        assert!(is_valid_address(address), "rejected {:?}", address);
    }
}

#[test]
fn the_parts_of_a_url_decide_the_route() {
    let parts = UrlParts {
        scheme: text("poll"),
        username: text("uni"),
        host: Some(text("g")),
        path: text("/p/q"),
    };
    match route_url("poll://uni@g/p/q", parts) {
        Some(Address::Poll(p)) => assert_eq!(p.id.as_deref(), Some("p/q")),
        other => panic!("{:?}", other),
    }
    let hostless = UrlParts {
        scheme: text("poll"),
        username: text("any"),
        host: None,
        path: text("/"),
    };
    assert!(route_url("poll:/", hostless).is_none());
}

// Opening

#[test]
fn databases_are_opened_as_asked() {
    let opening = SqliteServer::<u8>::open("resonate.db");
    assert!(matches!(opening.backend, SqliteBackend::Local(p) if p == "resonate.db"));
    assert!(!opening.config.debug);
    assert_eq!(opening.config.tasks.retry_timeout, 30_000);
    assert_eq!(opening.config.timeouts.poll_interval, 1_000);
    assert_eq!(opening.config.messages.poll_interval, 100);
    assert_eq!(opening.config.messages.batch_size, 100);
    assert_eq!(opening.config.server.url, None);

    let mut config = Config::default();
    config.debug = true;
    let opening = SqliteServer::<u8>::open_with_config(":memory:", config);
    assert!(matches!(opening.backend, SqliteBackend::Local(p) if p == ":memory:"));
    assert!(opening.config.debug);

    let opening = SqliteServer::<u8>::open_remote(text("u"), text("t"), Config::default());
    assert!(matches!(
        opening.backend,
        SqliteBackend::Remote { url, auth_token } if url == "u" && auth_token == "t"
    ));

    let interval = Some(Duration::from_secs(3));
    let opening = SqliteServer::<u8>::open_remote_replica(
        text("p"),
        text("u"),
        text("t"),
        interval,
        Config::default(),
    );
    match opening.backend {
        SqliteBackend::RemoteReplica { path, url, auth_token, sync_interval } => {
            assert_eq!((path.as_str(), url.as_str(), auth_token.as_str()), ("p", "u", "t"));
            assert_eq!(sync_interval, Some(Duration::from_secs(3)));
        }
        other => panic!("{:?}", other),
    }
}

#[test]
fn a_database_that_does_not_open_is_a_server_error() {
    let failed: Result<u8, StorageError> = Err(StorageError::Backend(text("no such file")));
    match SqliteServer::open_backend(failed, Config::default()) {
        Err(Error::ServerError { code, message }) => {
            assert_eq!(code, 500);
            assert_eq!(message, "failed to open sqlite database: Storage error: no such file");
        }
        _ => panic!("expected a server error"),
    }
    let failed: Result<u8, StorageError> = Err(StorageError::Serialization);
    let opened = SqliteNetwork::with_backend(failed, None, None, Config::default(), text("g"));
    assert!(matches!(opened, Err(Error::ServerError { code: 500, .. })));
}

#[test]
fn database_errors_carry_their_message() {
    let e = libsql::Error::ConnectionFailed(text("refused"));
    let expected = format!("Storage error: {}", e);
    let storage = StorageError::from(e);
    assert_eq!(storage.message(), expected);
    assert!(expected.contains("refused"));
    assert_eq!(StorageError::Serialization.message(), "Serialization conflict");
    assert_eq!(StorageError::InvalidInput(text("x")).message(), "Invalid input: x");
}

// Connections

#[test]
fn identity() {
    let opened = SqliteNetwork::with_backend(
        Ok(7u8),
        Some(text("test-pid")),
        Some(text("default")),
        Config::default(),
        text("generated"),
    );
    let (server, net) = match opened {
        Ok(pair) => pair,
        Err(e) => panic!("{:?}", e),
    };
    assert_eq!(net.pid(), "test-pid");
    assert_eq!(net.group(), "default");
    assert_eq!(net.unicast(), "poll://uni@default/test-pid");
    assert_eq!(net.anycast(), "poll://any@default/test-pid");
    assert_eq!(net.target_resolver("hello"), "poll://any@hello");
    assert_eq!(server.registry.connections().len(), 1);
    assert_eq!(server.server.storage, 7);
    assert!(!server.server.debug_mode);
}

#[test]
fn a_connection_defaults_its_pid_and_group() {
    let mut s = server(Config::default());
    let net = s.connect(None, None, text("abc"));
    assert_eq!(net.pid(), "abc");
    assert_eq!(net.group(), "default");
    assert_eq!(net.unicast(), "poll://uni@default/abc");
}

#[test]
fn messages_reach_the_connections_that_are_meant() {
    let mut s = server(Config::default());
    let a = net(&mut s, "a", "g");
    let b = net(&mut s, "b", "g");
    let other = net(&mut s, "a", "h");
    let conns = s.registry.connections();
    assert_eq!(deliver(conns, a.unicast()), vec![a.connection.key]);
    assert_eq!(deliver(conns, other.unicast()), vec![other.connection.key]);
    assert_eq!(deliver(conns, a.anycast()), vec![a.connection.key, b.connection.key]);
    assert_eq!(deliver(conns, "poll://any@g"), vec![a.connection.key, b.connection.key]);
    assert_eq!(deliver(conns, &b.target_resolver("h")), vec![other.connection.key]);
    assert_eq!(deliver(conns, "poll://uni@g"), Vec::<u64>::new());
    assert_eq!(deliver(conns, "poll://uni@g/c"), Vec::<u64>::new());
    assert_eq!(deliver(conns, "http://example.com"), Vec::<u64>::new());
    assert_eq!(deliver(conns, "nonsense"), Vec::<u64>::new());

    let parsed = Some(Address::Poll(PollAddress {
        cast: PollCast::Uni,
        group: text("g"),
        id: Some(text("b")),
    }));
    assert_eq!(deliver_to(conns, &parsed), vec![b.connection.key]);
    assert_eq!(deliver_to(conns, &None), Vec::<u64>::new());
}

#[test]
fn a_stopped_connection_is_not_reached() {
    let mut s = server(Config::default());
    let a = net(&mut s, "a", "g");
    let twin = net(&mut s, "a", "g");
    let b = net(&mut s, "b", "g");
    a.stop(&mut s);
    assert_eq!(
        deliver(s.registry.connections(), "poll://any@g"),
        vec![twin.connection.key, b.connection.key]
    );
    assert_eq!(deliver(s.registry.connections(), a.unicast()), vec![twin.connection.key]);
    // Stopping twice stops nothing else, and a key is not given again.
    a.stop(&mut s);
    assert_eq!(s.registry.connections().len(), 2);
    let c = net(&mut s, "c", "g");
    assert_ne!(c.connection.key, a.connection.key);
    assert!(!s.registry.is_full());
}

#[test]
fn outgoing_messages_are_routed_in_order() {
    let mut config = Config::default();
    config.server.url = Some(text("http://server"));
    let mut s = server(config);
    let a = net(&mut s, "a", "g");
    let promise = PromiseRecord {
        id: text("p"),
        state: PromiseState::Resolved,
        param: Value { headers: None, data: None },
        value: Value { headers: None, data: Some(text("42")) },
        tags: StringMap::new(),
        timeout_at: 10,
        created_at: 1,
        settled_at: Some(5),
    };
    let deliveries = route_outgoing(
        s.registry.connections(),
        &s.server.config,
        vec![
            OutgoingExecute { id: text("t1"), version: 1, address: text("poll://any@g") },
            OutgoingExecute { id: text("t2"), version: 4, address: text("poll://any@nobody") },
        ],
        vec![OutgoingUnblock { address: text("poll://uni@g/a"), promise }],
    );
    assert_eq!(deliveries.len(), 3);
    assert_eq!(deliveries[0].keys, vec![a.connection.key]);
    match &deliveries[0].message {
        Message::Execute { server_url, id, version } => {
            assert_eq!((server_url.as_str(), id.as_str(), *version), ("http://server", "t1", 1));
        }
        other => panic!("{:?}", other),
    }
    assert!(deliveries[1].keys.is_empty());
    assert!(matches!(&deliveries[1].message, Message::Execute { id, version: 4, .. } if id == "t2"));
    assert_eq!(deliveries[2].keys, vec![a.connection.key]);
    assert!(matches!(
        &deliveries[2].message,
        Message::Unblock { promise } if promise.value.data.as_deref() == Some("42")
    ));
}

#[test]
fn messages_have_their_envelopes() {
    let message = execute_json("http://server", "t1", 3);
    assert_eq!(message.field("kind").and_then(|k| k.as_str()), Some("execute"));
    let head = message.field("head").unwrap();
    assert_eq!(head.field("serverUrl").and_then(|u| u.as_str()), Some("http://server"));
    let task = message.field("data").and_then(|d| d.field("task")).unwrap();
    assert_eq!(task.field("id").and_then(|i| i.as_str()), Some("t1"));
    assert_eq!(task.field("version").and_then(|v| v.as_i64()), Some(3));

    let message = unblock_json(Json::Text(text("p")));
    assert_eq!(message.field("kind").and_then(|k| k.as_str()), Some("unblock"));
    assert_eq!(message.field("head"), Some(&Json::Object(Vec::new())));
    let data = message.field("data").unwrap();
    assert_eq!(data.field("promise"), Some(&Json::Text(text("p"))));
}

#[test]
fn a_missing_server_url_is_empty() {
    let s = server(Config::default());
    let deliveries = route_outgoing(
        s.registry.connections(),
        &s.server.config,
        vec![OutgoingExecute { id: text("t"), version: 1, address: text("poll://any@g") }],
        Vec::new(),
    );
    assert!(matches!(
        &deliveries[0].message,
        Message::Execute { server_url, .. } if server_url.is_empty()
    ));
}

#[test]
fn an_undecodable_request_is_reported() {
    match undecodable_request("expected value at line 1 column 1") {
        Error::DecodingError(m) => {
            assert_eq!(m, "invalid JSON request: expected value at line 1 column 1")
        }
        other => panic!("{:?}", other),
    }
}

// Background loops

#[test]
fn the_background_loops_start_once() {
    let mut config = Config::default();
    config.messages.poll_interval = 0;
    let mut s = server(config);
    let intervals = s.ensure_started().unwrap();
    assert_eq!(intervals.timeouts, 1_000);
    assert_eq!(intervals.messages, 1);
    assert!(s.started);
    assert!(s.ensure_started().is_none());
}

#[test]
fn the_background_loops_pause_in_debug_mode() {
    let mut s = server(Config::default());
    let run = s.timeout_tick(99).unwrap();
    assert_eq!(run.time, 99);
    assert!(matches!(run.stage, TimeoutStage::Timeouts));
    assert_eq!(s.message_tick(), Some(100));
    s.server.debug_mode = true;
    assert!(s.timeout_tick(99).is_none());
    assert_eq!(s.message_tick(), None);
}
