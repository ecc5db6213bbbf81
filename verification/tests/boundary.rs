use taos_ws::boundary::{
    connect_with_dsn, query_with_sql, ws_affected_rows, ws_connect_errno, ws_connect_errstr,
    ws_fetch_block, ws_fetch_fields, ws_fetch_fields_v2, ws_get_value_in_block, ws_num_of_fields,
    ws_query, ws_query_errno, ws_query_errstr, ws_result_precision, WsTaos,
};
use taos_ws::client::{Step, Ws};
use taos_ws::error::WsError;
use taos_ws::field::Field;
use taos_ws::block::{Block, Cell, TY_NULL};
use taos_ws::result_set::{ResultSet, WsResultSet};
use taos_ws::timestamp::{ws_timestamp_to_rfc3339, Precision};

/// A transport that answers from memory: what a server would report.
struct Server {
    reachable: bool,
}

impl Server {
    fn open(&self, url: &str) -> WsTaos<u64> {
        if self.reachable && url == "ws://localhost:6041/rest/ws" {
            Ok(1)
        } else {
            Err(WsError::from_transport(
                0x000B,
                "Unable to establish connection",
            ))
        }
    }

    fn query(&self, sql: &str) -> Result<(ResultSet, Vec<Block>), WsError> {
        match sql {
            "show databases" => Ok((
                ResultSet {
                    precision: Precision::Millisecond,
                    affected_rows: 0,
                    fields: (0..21)
                        .map(|i| Field {
                            name: format!("column{}", i),
                            ty: 8,
                            bytes: 64,
                        })
                        .collect(),
                },
                vec![Block::new(
                    2,
                    (0..21)
                        .map(|c| (0..2).map(|r| text(&format!("{}:{}", r, c))).collect())
                        .collect(),
                    vec![1, 2, 3],
                )
                .unwrap()],
            )),
            "select * from wsabc.tb1" => Ok((table_schema(), vec![table_block()])),
            "select * from ws_abc_a.tb1" => Ok((
                ResultSet {
                    precision: Precision::Millisecond,
                    affected_rows: 0,
                    fields: vec![
                        Field {
                            name: "ts".to_string(),
                            ty: 9,
                            bytes: 8,
                        },
                        Field {
                            name: "v".to_string(),
                            ty: 4,
                            bytes: 4,
                        },
                    ],
                },
                vec![Block::new(
                    1,
                    vec![
                        vec![fixed(9, &1655793421375i64.to_le_bytes())],
                        vec![fixed(4, &1i32.to_le_bytes())],
                    ],
                    vec![],
                )
                .unwrap()],
            )),
            "insert into ws_abc_a.tb1 values(1655793421375, 1)" => Ok((
                ResultSet {
                    precision: Precision::Millisecond,
                    affected_rows: 1,
                    fields: vec![],
                },
                vec![],
            )),
            "insert into wsabc.tb1 values(65535,-1,-2,-3,-4, 1,2,3,4, 'abc', '涛思',-5,-6,-7,-8, 5,6,7,8, 'def', '数据')" => {
                Ok((
                    ResultSet {
                        precision: Precision::Millisecond,
                        affected_rows: 1,
                        fields: vec![],
                    },
                    vec![],
                ))
            }
            sql if sql.starts_with("create table wsabc.tb1(ts timestamp,c8i1 tinyint,")
                && sql.ends_with("cb2 binary(10), cn2 nchar(16))") =>
            {
                Ok((
                    ResultSet {
                        precision: Precision::Millisecond,
                        affected_rows: 0,
                        fields: vec![],
                    },
                    vec![],
                ))
            }
            "drop database if exists wsabc"
            | "create database wsabc keep 36500"
            | "drop database wsabc"
            | "create database if not exists ws_abc_a"
            | "create table if not exists ws_abc_a.tb1(ts timestamp, v int)"
            | "drop database ws_abc_a" => Ok((
                ResultSet {
                    precision: Precision::Millisecond,
                    affected_rows: 0,
                    fields: vec![],
                },
                vec![],
            )),
            _ => Err(WsError::from_transport(0x2600, "Incomplete SQL statement")),
        }
    }
}

fn text(s: &str) -> Cell {
    Cell {
        ty: 8,
        len: s.len() as u32,
        data: Some(s.as_bytes().to_vec()),
    }
}

fn fixed(ty: u8, bytes: &[u8]) -> Cell {
    Cell {
        ty,
        len: bytes.len() as u32,
        data: Some(bytes.to_vec()),
    }
}

fn table_schema() -> ResultSet {
    let columns: [(&str, u8, u32); 21] = [
        ("ts", 9, 8),
        ("c8i1", 2, 1),
        ("c16i1", 3, 2),
        ("c32i1", 4, 4),
        ("c64i1", 5, 8),
        ("c8u1", 11, 1),
        ("c16u1", 12, 2),
        ("c32u1", 13, 4),
        ("c64u1", 14, 8),
        ("cb1", 8, 100),
        ("cn1", 10, 10),
        ("c8i2", 2, 1),
        ("c16i2", 3, 2),
        ("c32i2", 4, 4),
        ("c64i2", 5, 8),
        ("c8u2", 11, 1),
        ("c16u2", 12, 2),
        ("c32u2", 13, 4),
        ("c64u2", 14, 8),
        ("cb2", 8, 10),
        ("cn2", 10, 16),
    ];
    ResultSet {
        precision: Precision::Millisecond,
        affected_rows: 0,
        fields: columns
            .iter()
            .map(|c| Field {
                name: c.0.to_string(),
                ty: c.1,
                bytes: c.2,
            })
            .collect(),
    }
}

fn table_block() -> Block {
    let row = vec![
        fixed(9, &65535i64.to_le_bytes()),
        fixed(2, &(-1i8).to_le_bytes()),
        fixed(3, &(-2i16).to_le_bytes()),
        fixed(4, &(-3i32).to_le_bytes()),
        fixed(5, &(-4i64).to_le_bytes()),
        fixed(11, &1u8.to_le_bytes()),
        fixed(12, &2u16.to_le_bytes()),
        fixed(13, &3u32.to_le_bytes()),
        fixed(14, &4u64.to_le_bytes()),
        fixed(8, "abc".as_bytes()),
        fixed(10, "涛思".as_bytes()),
        fixed(2, &(-5i8).to_le_bytes()),
        fixed(3, &(-6i16).to_le_bytes()),
        fixed(4, &(-7i32).to_le_bytes()),
        fixed(5, &(-8i64).to_le_bytes()),
        fixed(11, &5u8.to_le_bytes()),
        fixed(12, &6u16.to_le_bytes()),
        fixed(13, &7u32.to_le_bytes()),
        fixed(14, &8u64.to_le_bytes()),
        fixed(8, "def".as_bytes()),
        fixed(10, "数据".as_bytes()),
    ];
    Block::new(1, row.into_iter().map(|cell| vec![cell]).collect(), vec![]).unwrap()
}

/// What a foreign caller does to connect: plan, then open the transport.
fn connect_to(server: &Server, dsn: &[u8]) -> WsTaos<u64> {
    match connect_with_dsn(dsn) {
        Ok(info) => server.open(&info.to_query_url()),
        Err(e) => Err(e),
    }
}

/// What a foreign caller does to query: plan, then run on the transport.
fn run(server: &Server, taos: Option<&WsTaos<u64>>, sql: &[u8]) -> (WsResultSet, Vec<Block>) {
    match ws_query(taos, sql) {
        Ok(query) => match server.query(query.sql) {
            Ok((rs, blocks)) => (WsResultSet::new(Ok(rs)), blocks),
            Err(e) => (WsResultSet::new(Err(e)), vec![]),
        },
        Err(set) => (set, vec![]),
    }
}

fn c_str(buffer: &[u8]) -> &str {
    assert_eq!(buffer.last(), Some(&0));
    std::str::from_utf8(&buffer[..buffer.len() - 1]).unwrap()
}

#[test]
fn dsn_error() {
    let server = Server { reachable: true };
    let taos = connect_to(&server, b"ws://localhost:10");
    let code = ws_connect_errno(Some(&taos));
    assert!(code != 0);
    let str = ws_connect_errstr(Some(&taos));
    assert!(!c_str(str).is_empty());
}

#[test]
fn unreachable_session_fails_every_query_alike() {
    let server = Server { reachable: false };
    let taos = connect_to(&server, b"ws://localhost:6041");
    assert_eq!(ws_connect_errno(Some(&taos)), 0x000B);
    assert_eq!(
        c_str(ws_connect_errstr(Some(&taos))),
        "Unable to establish connection"
    );
    let (mut rs, _) = run(&server, Some(&taos), b"show databases");
    assert_eq!(ws_query_errno(Some(&rs)), 0x000B);
    assert_eq!(
        c_str(ws_query_errstr(Some(&rs))),
        "Unable to establish connection"
    );
    assert_eq!(ws_affected_rows(Some(&rs)), 0);
    assert_eq!(ws_num_of_fields(Some(&rs)), 0);
    assert_eq!(ws_result_precision(Some(&rs)), 0);
    assert!(ws_fetch_fields(Some(&mut rs)).is_none());
    assert!(ws_fetch_fields_v2(Some(&mut rs)).is_none());
    assert_eq!(ws_fetch_block(Some(&mut rs), None), (0x000B, 0));
    let v = ws_get_value_in_block(Some(&rs), 0, 0);
    assert_eq!((v.ty, v.len, v.data), (TY_NULL, 0, None));
    assert_eq!(ws_query_errno(Some(&rs)), 0x000B);
}

#[test]
fn query_error() {
    let server = Server { reachable: true };
    let taos = connect_to(&server, b"ws://localhost:6041");
    let code = ws_connect_errno(Some(&taos));
    assert!(code == 0);

    let sql = b"show databasess";
    let (rs, _) = run(&server, Some(&taos), sql);

    let code = ws_query_errno(Some(&rs));
    let err = c_str(ws_query_errstr(Some(&rs)));
    assert!(code != 0);
    assert!(err == "Incomplete SQL statement");
}

#[test]
fn connect() {
    let server = Server { reachable: true };
    let taos = connect_to(&server, b"ws://localhost:6041");
    let code = ws_connect_errno(Some(&taos));
    assert!(code == 0);
    assert_eq!(ws_connect_errstr(Some(&taos)), b"\0");

    let sql = b"show databases";
    let (mut rs, mut blocks) = run(&server, Some(&taos), sql);

    let code = ws_query_errno(Some(&rs));
    assert!(code == 0);
    assert_eq!(ws_query_errstr(Some(&rs)), b"\0");

    let affected_rows = ws_affected_rows(Some(&rs));
    assert!(affected_rows == 0);

    let num_of_fields = ws_num_of_fields(Some(&rs));
    assert!(num_of_fields == 21);
    let fields = ws_fetch_fields(Some(&mut rs)).unwrap().to_vec();
    assert_eq!(fields.len(), 21);
    for (i, field) in fields.iter().enumerate() {
        assert_eq!(field.name(), format!("column{}", i).as_bytes());
        assert_eq!((field.ty(), field.bytes()), (8, 64));
    }
    let legacy = ws_fetch_fields_v2(Some(&mut rs)).unwrap().to_vec();
    assert_eq!(legacy.len(), 21);
    for i in 0..21 {
        assert_eq!(legacy[i].name, fields[i].name);
        assert_eq!(legacy[i].ty, fields[i].ty);
    }

    let (code, rows) = ws_fetch_block(Some(&mut rs), blocks.pop());
    assert_eq!(code, 0);
    assert_eq!(rows, 2);
    assert_eq!(rs.block_bytes(), Some(&[1u8, 2, 3][..]));
    for row in 0..rows {
        for col in 0..num_of_fields {
            let v = ws_get_value_in_block(Some(&rs), row, col);
            let expected = format!("{}:{}", row, col);
            assert_eq!(v.ty, 8);
            assert_eq!(v.len as usize, expected.len());
            assert_eq!(v.data, Some(expected.as_bytes()));
        }
    }
    for (row, col) in [(rows, 0), (0, num_of_fields), (-1, 0), (0, -1), (i32::MIN, i32::MAX)] {
        let v = ws_get_value_in_block(Some(&rs), row, col);
        assert_eq!((v.ty, v.len, v.data), (TY_NULL, 0, None));
    }
    assert_eq!(ws_fetch_block(Some(&mut rs), blocks.pop()), (0, 0));
    assert_eq!(ws_fetch_block(Some(&mut rs), None), (0, 0));
}

/// Runs a statement through the client as a blocking call does.
fn exec(client: &Ws, server: &Server, sessions: &mut Vec<WsTaos<u64>>, sql: &str) -> WsResultSet {
    let session = match client.blocking_step() {
        Step::Use(session) => session,
        Step::Connect => {
            let info = client.connect_info().unwrap();
            sessions.push(server.open(&info.to_query_url()));
            client.publish_blocking(sessions.len() as u64 - 1)
        }
    };
    let (mut rs, mut blocks) = run(server, Some(&sessions[session as usize]), sql.as_bytes());
    ws_fetch_block(Some(&mut rs), blocks.pop());
    rs
}

#[test]
fn ws_sync() {
    let server = Server { reachable: true };
    let mut sessions = Vec::new();
    let client = Ws::from_dsn("ws://localhost:6041/").unwrap();
    assert_eq!(
        exec(&client, &server, &mut sessions, "drop database if exists wsabc").affected_rows(),
        0
    );
    assert_eq!(
        exec(&client, &server, &mut sessions, "create database wsabc keep 36500").affected_rows(),
        0
    );
    assert_eq!(
        exec(
            &client,
            &server,
            &mut sessions,
            "create table wsabc.tb1(ts timestamp,\
                    c8i1 tinyint, c16i1 smallint, c32i1 int, c64i1 bigint,\
                    c8u1 tinyint unsigned, c16u1 smallint unsigned, c32u1 int unsigned, c64u1 bigint unsigned,\
                    cb1 binary(100), cn1 nchar(10),

                    c8i2 tinyint, c16i2 smallint, c32i2 int, c64i2 bigint,\
                    c8u2 tinyint unsigned, c16u2 smallint unsigned, c32u2 int unsigned, c64u2 bigint unsigned,\
                    cb2 binary(10), cn2 nchar(16))"
        )
        .affected_rows(),
        0
    );
    assert_eq!(
        exec(
            &client,
            &server,
            &mut sessions,
            "insert into wsabc.tb1 values(65535,\
                -1,-2,-3,-4, 1,2,3,4, 'abc', '涛思',\
                -5,-6,-7,-8, 5,6,7,8, 'def', '数据')"
        )
        .affected_rows(),
        1
    );
    assert_eq!(sessions.len(), 1);

    let rs = exec(&client, &server, &mut sessions, "select * from wsabc.tb1");
    assert_eq!(rs.errno(), 0);
    assert_eq!(rs.num_of_fields(), 21);

    let v = rs.get_raw_value(0, 0);
    let raw = i64::from_le_bytes(v.data.unwrap().try_into().unwrap());
    assert_eq!(raw, 65535);
    let mut ts = vec![0u8; 64];
    let written = ws_timestamp_to_rfc3339(&mut ts, raw, rs.precision().as_i32(), true);
    let rendered = String::from_utf8(ts[..written].to_vec()).unwrap();
    assert_eq!(&rendered[..23], "1970-01-01T00:01:05.535");
    assert_eq!(&rendered[23..], "Z");
    let int = |col: usize| -> i64 {
        let v = rs.get_raw_value(0, col);
        let mut wide = [if v.data.unwrap().last().unwrap() & 0x80 != 0 && matches!(v.ty, 2..=5) {
            0xFF
        } else {
            0
        }; 8];
        wide[..v.len as usize].copy_from_slice(v.data.unwrap());
        i64::from_le_bytes(wide)
    };
    let string = |col: usize| -> String {
        String::from_utf8(rs.get_raw_value(0, col).data.unwrap().to_vec()).unwrap()
    };
    assert_eq!(int(1), -1);
    assert_eq!(int(11), -5);
    assert_eq!(string(9), "abc".to_string());
    assert_eq!(string(19), "def".to_string());
    assert_eq!(string(10), "涛思".to_string());
    assert_eq!(string(20), "数据".to_string());
    assert_eq!(int(2), -2);
    assert_eq!(int(3), -3);
    assert_eq!(int(4), -4);
    assert_eq!(int(5), 1);
    assert_eq!(int(6), 2);
    assert_eq!(int(7), 3);
    assert_eq!(int(8), 4);
    assert_eq!(int(12), -6);
    assert_eq!(int(13), -7);
    assert_eq!(int(14), -8);
    assert_eq!(int(15), 5);
    assert_eq!(int(16), 6);
    assert_eq!(int(17), 7);
    assert_eq!(int(18), 8);

    assert_eq!(
        exec(&client, &server, &mut sessions, "drop database wsabc").affected_rows(),
        0
    );
    assert_eq!(sessions.len(), 1);
}

/// Runs a statement through the client as a non-blocking call does.
fn exec_streaming(
    client: &Ws,
    server: &Server,
    sessions: &mut Vec<WsTaos<u64>>,
    sql: &str,
) -> WsResultSet {
    let session = match client.streaming_step() {
        Step::Use(session) => session,
        Step::Connect => {
            let info = client.connect_info().unwrap();
            sessions.push(server.open(&info.to_query_url()));
            client.publish_streaming(sessions.len() as u64 - 1)
        }
    };
    let (mut rs, mut blocks) = run(server, Some(&sessions[session as usize]), sql.as_bytes());
    ws_fetch_block(Some(&mut rs), blocks.pop());
    rs
}

#[test]
fn test_client() {
    let server = Server { reachable: true };
    let mut sessions = Vec::new();
    let client = Ws::from_dsn("ws://localhost:6041/").unwrap();
    assert_eq!(
        exec_streaming(
            &client,
            &server,
            &mut sessions,
            "create database if not exists ws_abc_a"
        )
        .affected_rows(),
        0
    );
    assert_eq!(
        exec_streaming(
            &client,
            &server,
            &mut sessions,
            "create table if not exists ws_abc_a.tb1(ts timestamp, v int)"
        )
        .affected_rows(),
        0
    );
    assert_eq!(
        exec_streaming(
            &client,
            &server,
            &mut sessions,
            "insert into ws_abc_a.tb1 values(1655793421375, 1)"
        )
        .affected_rows(),
        1
    );

    let rs = exec_streaming(&client, &server, &mut sessions, "select * from ws_abc_a.tb1");
    assert_eq!(rs.errno(), 0);
    let ts = rs.get_raw_value(0, 0);
    assert_eq!(ts.data, Some(&1655793421375i64.to_le_bytes()[..]));
    let v = rs.get_raw_value(0, 1);
    assert_eq!((v.ty, v.len, v.data), (4, 4, Some(&1i32.to_le_bytes()[..])));

    assert_eq!(
        exec_streaming(&client, &server, &mut sessions, "drop database ws_abc_a").affected_rows(),
        0
    );
    assert_eq!(sessions.len(), 1);
    assert_eq!(client.blocking_step(), Step::Connect);
}

#[test]
fn ws_show_databases() {
    let server = Server { reachable: true };
    let mut sessions = Vec::new();
    let client = Ws::from_dsn("ws://localhost:6041/").unwrap();

    let rs = exec(&client, &server, &mut sessions, "show databases");
    assert_eq!(rs.errno(), 0);
    let mut values = Vec::new();
    for row in 0..2 {
        for col in 0..21 {
            values.push(rs.get_raw_value(row, col).data.unwrap().to_vec());
        }
    }
    assert_eq!(values.len(), 42);
    assert_eq!(values[22], b"1:1");
}

#[test]
fn null_handles_are_inert() {
    let none: Option<&WsTaos<u64>> = None;
    assert_eq!(ws_connect_errno(none), 0);
    assert_eq!(ws_connect_errstr(none), b"\0");
    assert_eq!(ws_query_errno(None), 0);
    assert_eq!(ws_query_errstr(None), b"\0");
    assert_eq!(ws_affected_rows(None), 0);
    assert_eq!(ws_num_of_fields(None), 0);
    assert_eq!(ws_result_precision(None), 0);
    assert!(ws_fetch_fields(None).is_none());
    assert!(ws_fetch_fields_v2(None).is_none());
    assert_eq!(ws_fetch_block(None, None), (0, 0));
    assert_eq!(ws_fetch_block(None, Some(table_block())), (0, 0));
    let v = ws_get_value_in_block(None, 0, 0);
    assert_eq!((v.ty, v.len, v.data), (TY_NULL, 0, None));
}

#[test]
fn query_on_null_session_fails() {
    let none: Option<&WsTaos<u64>> = None;
    let e = query_with_sql(none, b"show databases").err().unwrap();
    assert_eq!(e.code(), 0xFFFF);
    assert_eq!(e.message(), b"client pointer is null");
    let rs = ws_query(none, b"show databases").err().unwrap();
    assert_eq!(ws_query_errno(Some(&rs)), 0xFFFF);
    assert_eq!(c_str(ws_query_errstr(Some(&rs))), "client pointer is null");
}

#[test]
fn query_that_is_no_text_fails() {
    let taos: WsTaos<u64> = Ok(5);
    let e = query_with_sql(Some(&taos), b"select \xFF").err().unwrap();
    assert_eq!(e.code(), 0xFFFF);
    assert_eq!(
        e.message(),
        b"invalid utf-8 sequence of 1 bytes from index 7"
    );
    let e = query_with_sql(Some(&taos), b"select \xE6\xB6").err().unwrap();
    assert_eq!(e.message(), b"incomplete utf-8 byte sequence from index 7");
    let rs = ws_query(Some(&taos), b"\xC0").err().unwrap();
    assert_eq!(rs.errno(), 0xFFFF);
}

#[test]
fn query_is_handed_to_the_session() {
    let taos: WsTaos<u64> = Ok(5);
    let query = query_with_sql(Some(&taos), "select '涛思'".as_bytes())
        .ok()
        .unwrap();
    assert_eq!(*query.client, 5);
    assert_eq!(query.sql, "select '涛思'");
    let query = ws_query(Some(&taos), b"").ok().unwrap();
    assert_eq!((*query.client, query.sql), (5, ""));
}

#[test]
fn stored_failure_comes_before_the_statement() {
    let taos: WsTaos<u64> = Err(WsError::from_transport(0x0357, "Authentication failure"));
    let e = query_with_sql(Some(&taos), b"\xFF").err().unwrap();
    assert_eq!(e.code(), 0x0357);
    assert_eq!(e.message(), b"Authentication failure");
}

#[test]
fn connecting_resolves_the_descriptor() {
    let info = connect_with_dsn(b"wss://db.example.com/power?token=k").unwrap();
    assert_eq!(
        info.to_query_url(),
        "wss://db.example.com/rest/ws?token=k"
    );
    let e = connect_with_dsn(b"taos://localhost:6030").unwrap_err();
    assert_eq!(e.code(), 0xFFFF);
    assert_eq!(e.message(), b"invalid driver taos://localhost:6030");
    let e = connect_with_dsn(b"ws://\xFFlocalhost").unwrap_err();
    assert_eq!(e.code(), 0xFFFF);
    assert_eq!(
        e.message(),
        b"invalid utf-8 sequence of 1 bytes from index 5"
    );
    let e = connect_with_dsn(b"").unwrap_err();
    assert_eq!(e.message(), b"invalid connection ");
    let e = connect_with_dsn(b"ws://%ff").unwrap_err();
    assert_eq!(e.message(), b"unsupported escape in ws://%ff");
}
