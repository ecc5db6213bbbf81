//! The operations behind the foreign-callable surface. Each takes the object
//! behind a handle as an `Option`, absent for a null handle, and answers a
//! null handle with an inert value.

use vstd::prelude::*;
use vstd::string::StringExecFns;
use vstd::string::StringSliceAdditionalSpecFns;
use vstd::utf8::{decode_utf8, encode_utf8, valid_utf8};
use crate::error::{c_text, is_c_string, WsError, WsErrorView, FAILED};
use crate::field::{WS_FIELD, WS_FIELD_V2};
use crate::info::{resolve_text, WsInfo, WsInfoView};
use crate::block::{cell_fits, null_value, Block, BlockView, CellView, RawValue};
use crate::text::{decode, utf8_error_text};
use crate::result_set::{
    block_view, entries, entries_v2, entry_views, entry_views_v2, WsResultSet, WsResultSetView,
};

verus! {

/// What stands behind a session handle: the session that a transport
/// opened, or why there is none.
pub type WsTaos<C> = Result<C, WsError>;

/// A failure of the library's own with the given message.
pub open spec fn failure(message: Seq<char>) -> WsErrorView {
    WsErrorView { code: FAILED, message: c_text(encode_utf8(message)) }
}

/// What a caller's string is read as: its text, or the failure to decode it.
pub open spec fn decoded(bytes: Seq<u8>) -> Result<Seq<char>, WsErrorView> {
    if valid_utf8(bytes) {
        Ok(decode_utf8(bytes))
    } else {
        Err(failure(utf8_error_text(bytes)))
    }
}

fn read_text(bytes: &[u8]) -> (r: Result<&str, WsError>)
    ensures
        match r {
            Ok(text) => decoded(bytes@) == Ok::<Seq<char>, WsErrorView>(text@),
            Err(e) => decoded(bytes@) == Err::<Seq<char>, WsErrorView>(e@),
        },
{
    match decode(bytes) {
        Ok(text) => {
            proof {
                vstd::utf8::encode_utf8_decode_utf8(text@);
            }
            Ok(text)
        },
        Err(message) => Err(WsError::new(message.as_str())),
    }
}

/// What connecting with a descriptor starts from: the resolved connection
/// information, or the failure that the session handle will hold.
pub open spec fn connect_plan(dsn: Seq<u8>) -> Result<WsInfoView, WsErrorView> {
    match decoded(dsn) {
        Ok(text) => match resolve_text(text) {
            Ok(info) => Ok(info),
            Err(e) => Err(failure(e.message())),
        },
        Err(e) => Err(e),
    }
}

/// The outcome of planning a connection, as values.
pub open spec fn plan_view(r: Result<WsInfo, WsError>) -> Result<WsInfoView, WsErrorView> {
    match r {
        Ok(info) => Ok(info@),
        Err(e) => Err(e@),
    }
}

/// Reads and resolves the descriptor that a caller connects with. On success
/// the transport is opened with what comes back; a failure goes into the
/// session handle as it is.
pub fn connect_with_dsn(dsn: &[u8]) -> (r: Result<WsInfo, WsError>)
    ensures
        plan_view(r) == connect_plan(dsn@),
{
    let text = match read_text(dsn) {
        Ok(text) => text,
        Err(e) => {
            return Err(e);
        },
    };
    match WsInfo::from_dsn(text) {
        Ok(info) => Ok(info),
        Err(e) => {
            let message = e.message();
            Err(WsError::new(message.as_str()))
        },
    }
}

/// The code of a session handle: zero for a session and for a null handle.
pub open spec fn session_errno<C>(taos: Option<&WsTaos<C>>) -> i32 {
    match taos {
        Some(Err(e)) => e@.code,
        _ => 0,
    }
}

/// The message of a session handle as a C string: empty for a session and
/// for a null handle.
pub open spec fn session_errstr<C>(taos: Option<&WsTaos<C>>) -> Seq<u8> {
    match taos {
        Some(Err(e)) => e@.message.push(0u8),
        _ => seq![0u8],
    }
}

fn empty_c_string() -> (s: &'static [u8])
    ensures
        s@ == seq![0u8],
        is_c_string(s@),
{
    let empty: &'static [u8; 1] = &[0u8];
    assert(seq![0u8].drop_last() =~= Seq::<u8>::empty());
    empty.as_slice()
}

/// The code of the failure that a session handle holds: zero where it
/// holds a session and for a null handle.
pub fn ws_connect_errno<C>(taos: Option<&WsTaos<C>>) -> (code: i32)
    ensures
        code == session_errno(taos),
{
    match taos {
        Some(Ok(_)) => 0,
        Some(Err(err)) => err.code(),
        None => 0,
    }
}

/// The message of the failure that a session handle holds, as a C string
/// that lives as long as the handle: empty where it holds a session and for
/// a null handle.
pub fn ws_connect_errstr<'a, C>(taos: Option<&'a WsTaos<C>>) -> (message: &'a [u8])
    ensures
        message@ == session_errstr(taos),
        is_c_string(message@),
{
    match taos {
        Some(Ok(_)) => empty_c_string(),
        Some(Err(err)) => err.errstr(),
        None => empty_c_string(),
    }
}

/// A query that is ready for the transport: the session to run it on and the
/// statement.
pub struct Query<'a, C> {
    pub client: &'a C,
    pub sql: &'a str,
}

/// The message of the failure that answers a query on a null session handle.
pub open spec fn null_client() -> Seq<char> {
    "client pointer is null"@
}

/// Decides what a query on a session handle comes to before any transport is
/// asked: the failure of a null handle, the stored failure of a handle that
/// holds one, the failure to decode the statement, in this order; else the
/// query to run.
pub fn query_with_sql<'a, C>(taos: Option<&'a WsTaos<C>>, sql: &'a [u8]) -> (r: Result<
    Query<'a, C>,
    WsError,
>)
    ensures
        match taos {
            None => r is Err && r->Err_0@ == failure(null_client()),
            Some(Err(e)) => r is Err && r->Err_0@ == e@,
            Some(Ok(client)) => match decoded(sql@) {
                Ok(text) => r is Ok && r->Ok_0.client == client && r->Ok_0.sql@ == text,
                Err(e) => r is Err && r->Err_0@ == e,
            },
        },
{
    let client = match taos {
        None => {
            return Err(WsError::new("client pointer is null"));
        },
        Some(Err(e)) => {
            return Err(e.duplicate());
        },
        Some(Ok(client)) => client,
    };
    match read_text(sql) {
        Ok(text) => Ok(Query { client, sql: text }),
        Err(e) => Err(e),
    }
}

/// The cursor of a query that failed with `e` before or on the transport.
pub open spec fn errored(e: WsErrorView) -> WsResultSetView {
    WsResultSetView { outcome: Err(e), block: None, drained: false }
}

/// Answers a query on a session handle as far as no transport is needed:
/// either the query to run, of whose outcome the caller makes the result set,
/// or the result set that holds why the query cannot run.
pub fn ws_query<'a, C>(taos: Option<&'a WsTaos<C>>, sql: &'a [u8]) -> (r: Result<
    Query<'a, C>,
    WsResultSet,
>)
    ensures
        match taos {
            None => r is Err && r->Err_0@ == errored(failure(null_client())),
            Some(Err(e)) => r is Err && r->Err_0@ == errored(e@),
            Some(Ok(client)) => match decoded(sql@) {
                Ok(text) => r is Ok && r->Ok_0.client == client && r->Ok_0.sql@ == text,
                Err(e) => r is Err && r->Err_0@ == errored(e),
            },
        },
{
    match query_with_sql(taos, sql) {
        Ok(query) => Ok(query),
        Err(e) => Err(WsResultSet::new(Err(e))),
    }
}

/// The code of a result set: zero on success and for a null handle.
pub fn ws_query_errno(rs: Option<&WsResultSet>) -> (code: i32)
    ensures
        code == match rs {
            Some(rs) => rs@.errno(),
            None => 0,
        },
{
    match rs {
        Some(rs) => rs.errno(),
        None => 0,
    }
}

/// The message of a result set as a C string that lives as long as the
/// handle: empty on success and for a null handle.
pub fn ws_query_errstr<'a>(rs: Option<&'a WsResultSet>) -> (message: &'a [u8])
    ensures
        is_c_string(message@),
        message@ == match rs {
            Some(rs) => match rs@.outcome {
                Ok(_) => seq![0u8],
                Err(e) => e.message.push(0u8),
            },
            None => seq![0u8],
        },
{
    match rs {
        Some(rs) => rs.errstr(),
        None => empty_c_string(),
    }
}

/// The number of rows that the statement affected: zero for a failed result
/// set and for a null handle.
pub fn ws_affected_rows(rs: Option<&WsResultSet>) -> (n: i32)
    ensures
        n == match rs {
            Some(rs) => match rs@.outcome {
                Ok(set) => set.affected_rows as i32,
                Err(_) => 0,
            },
            None => 0,
        },
{
    match rs {
        Some(rs) => rs.affected_rows(),
        None => 0,
    }
}

/// The number of columns of the result: zero for a failed result set and
/// for a null handle.
pub fn ws_num_of_fields(rs: Option<&WsResultSet>) -> (n: i32)
    ensures
        n == match rs {
            Some(rs) => match rs@.outcome {
                Ok(set) => set.fields.len() as i32,
                Err(_) => 0,
            },
            None => 0,
        },
{
    match rs {
        Some(rs) => rs.num_of_fields(),
        None => 0,
    }
}

/// The number of the result's time precision: zero, the number of the
/// millisecond, for a failed result set and for a null handle.
pub fn ws_result_precision(rs: Option<&WsResultSet>) -> (tag: i32)
    ensures
        tag == match rs {
            Some(rs) => match rs@.outcome {
                Ok(set) => set.precision.tag(),
                Err(_) => 0,
            },
            None => 0,
        },
{
    match rs {
        Some(rs) => rs.precision().as_i32(),
        None => 0,
    }
}

/// The metadata array in the current layout, one entry for each column;
/// absent for a failed result set and for a null handle.
pub fn ws_fetch_fields<'a>(rs: Option<&'a mut WsResultSet>) -> (array: Option<&'a [WS_FIELD]>)
    ensures
        match rs {
            Some(rs) => {
                &&& final(rs)@ == rs@
                &&& final(rs).cached_v2() == rs.cached_v2()
                &&& match rs@.outcome {
                    Ok(set) => {
                        &&& array is Some
                        &&& array->0@ == final(rs).cached()
                        &&& array->0@.len() == set.fields.len()
                        &&& entry_views(array->0@) == entries(set.fields)
                        &&& rs.cached().len() == set.fields.len() ==> final(rs).cached()
                            == rs.cached()
                    },
                    Err(_) => array is None && final(rs).cached() == rs.cached(),
                }
            },
            None => array is None,
        },
{
    match rs {
        Some(rs) => rs.get_fields(),
        None => None,
    }
}

/// The metadata array in the legacy layout, one entry for each column;
/// absent for a failed result set and for a null handle.
pub fn ws_fetch_fields_v2<'a>(rs: Option<&'a mut WsResultSet>) -> (array: Option<
    &'a [WS_FIELD_V2],
>)
    ensures
        match rs {
            Some(rs) => {
                &&& final(rs)@ == rs@
                &&& final(rs).cached() == rs.cached()
                &&& match rs@.outcome {
                    Ok(set) => {
                        &&& array is Some
                        &&& array->0@ == final(rs).cached_v2()
                        &&& array->0@.len() == set.fields.len()
                        &&& entry_views_v2(array->0@) == entries_v2(set.fields)
                        &&& rs.cached_v2().len() == set.fields.len() ==> final(rs).cached_v2()
                            == rs.cached_v2()
                    },
                    Err(_) => array is None && final(rs).cached_v2() == rs.cached_v2(),
                }
            },
            None => array is None,
        },
{
    match rs {
        Some(rs) => rs.get_fields_v2(),
        None => None,
    }
}

/// Fetches the next block into the result set behind the handle and returns
/// the code and the number of rows held; a null handle reports the end of
/// the data.
pub fn ws_fetch_block(rs: Option<&mut WsResultSet>, next: Option<Block>) -> (r: (i32, i32))
    ensures
        match rs {
            Some(rs) => {
                &&& (r.0, r.1, final(rs)@) == rs@.fetched(block_view(next))
                &&& final(rs).cached() == rs.cached()
                &&& final(rs).cached_v2() == rs.cached_v2()
            },
            None => r == (0i32, 0i32),
        },
{
    match rs {
        Some(rs) => rs.fetch_block(next),
        None => (0, 0),
    }
}

/// What reading a position through a handle yields: a negative coordinate
/// and a null handle read as the absent value.
pub open spec fn value_in_block(rs: Option<&WsResultSet>, row: i32, col: i32) -> CellView {
    match rs {
        Some(rs) => if row >= 0 && col >= 0 {
            rs@.value(row as int, col as int)
        } else {
            null_value()
        },
        None => null_value(),
    }
}

/// Reads the value at a row and column of the block that the result set
/// holds. Whatever the block does not hold reads as the absent value.
pub fn ws_get_value_in_block<'a>(rs: Option<&'a WsResultSet>, row: i32, col: i32) -> (value:
    RawValue<'a>)
    ensures
        value@ == value_in_block(rs, row, col),
        cell_fits(value@),
{
    match rs {
        Some(rs) => {
            if row >= 0 && col >= 0 {
                rs.get_raw_value(row as usize, col as usize)
            } else {
                RawValue::null()
            }
        },
        None => RawValue::null(),
    }
}


/// A result set made of a failure reports the failure's code and is inert
/// otherwise: a fetch returns that code and no rows and changes nothing, and
/// every position reads as the absent value.
pub proof fn lemma_errored_is_inert(e: WsErrorView, next: Option<BlockView>, row: int, col: int)
    ensures
        errored(e).errno() == e.code,
        errored(e).fetched(next) == (e.code, 0i32, errored(e)),
        errored(e).value(row, col) == null_value(),
{
}

/// A message without a zero byte is reported verbatim: the C string of a
/// failure made of it holds the message's bytes and the terminator.
pub proof fn lemma_message_verbatim(message: Seq<char>)
    requires
        !encode_utf8(message).contains(0u8),
    ensures
        failure(message).message == encode_utf8(message),
{
    crate::error::lemma_c_text_verbatim(encode_utf8(message));
}

} // verus!
