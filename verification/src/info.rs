//! Resolution of a connection descriptor into transport scheme, address,
//! authentication mode and default database, and the endpoint URLs derived
//! from the resolved information.

use vstd::prelude::*;
use vstd::string::StringExecFns;
use crate::descriptor::{
    address_text, descriptor_text, keys_once, opt_text, parse_text, Descriptor, DescriptorView,
    DsnError, DsnErrorView,
};

verus! {

/// Transport scheme of a resolved connection: plain or TLS WebSocket.
#[derive(Debug, Clone, Copy, PartialEq, Eq, Structural)]
pub enum Scheme {
    Ws,
    Wss,
}

impl Scheme {
    /// The scheme as it is written in a URL.
    pub open spec fn text(self) -> Seq<char> {
        match self {
            Scheme::Ws => "ws"@,
            Scheme::Wss => "wss"@,
        }
    }

    /// The scheme as it is written in a URL.
    pub fn as_str(&self) -> (s: &'static str)
        ensures
            s@ == self.text(),
    {
        match self {
            Scheme::Ws => "ws",
            Scheme::Wss => "wss",
        }
    }
}

/// How a session authenticates: a bearer token carried in the endpoint URL,
/// or a username and password carried in the opening handshake.
#[derive(Debug, Clone, PartialEq, Eq)]
pub enum WsAuth {
    Token(String),
    Plain(String, String),
}

/// An authentication mode as a value.
pub enum WsAuthView {
    Token(Seq<char>),
    Plain(Seq<char>, Seq<char>),
}

impl View for WsAuth {
    type V = WsAuthView;

    open spec fn view(&self) -> WsAuthView {
        match self {
            WsAuth::Token(t) => WsAuthView::Token(t@),
            WsAuth::Plain(u, p) => WsAuthView::Plain(u@, p@),
        }
    }
}

/// Resolved connection information: what a transport needs to open a session.
#[derive(Debug, Clone, PartialEq, Eq)]
pub struct WsInfo {
    scheme: Scheme,
    addr: String,
    auth: WsAuth,
    database: Option<String>,
}

/// Resolved connection information as a value.
pub struct WsInfoView {
    pub scheme: Scheme,
    pub addr: Seq<char>,
    pub auth: WsAuthView,
    pub database: Option<Seq<char>>,
}

impl View for WsInfo {
    type V = WsInfoView;

    closed spec fn view(&self) -> WsInfoView {
        WsInfoView {
            scheme: self.scheme,
            addr: self.addr@,
            auth: self.auth@,
            database: opt_text(self.database),
        }
    }
}

/// Payload of the handshake that opens a session.
#[derive(Debug, Clone, PartialEq, Eq)]
pub struct WsConnReq {
    pub user: Option<String>,
    pub password: Option<String>,
    pub db: Option<String>,
}

/// A handshake payload as a value.
pub struct WsConnReqView {
    pub user: Option<Seq<char>>,
    pub password: Option<Seq<char>>,
    pub db: Option<Seq<char>>,
}

impl View for WsConnReq {
    type V = WsConnReqView;

    open spec fn view(&self) -> WsConnReqView {
        WsConnReqView {
            user: opt_text(self.user),
            password: opt_text(self.password),
            db: opt_text(self.db),
        }
    }
}

/// The scheme that a driver and sub-protocol select, if any.
pub open spec fn scheme_of(driver: Seq<char>, protocol: Option<Seq<char>>) -> Option<Scheme> {
    if driver == "ws"@ || driver == "http"@ {
        Some(Scheme::Ws)
    } else if driver == "wss"@ || driver == "https"@ {
        Some(Scheme::Wss)
    } else if driver == "taos"@ && protocol is Some {
        let p = protocol->0;
        if p == "ws"@ || p == "http"@ {
            Some(Scheme::Ws)
        } else if p == "wss"@ || p == "https"@ {
            Some(Scheme::Wss)
        } else {
            None
        }
    } else {
        None
    }
}

/// The value of the first parameter with the given key.
pub open spec fn param(params: Seq<(Seq<char>, Seq<char>)>, key: Seq<char>) -> Option<Seq<char>>
    decreases params.len(),
{
    if params.len() == 0 {
        None
    } else if params[0].0 == key {
        Some(params[0].1)
    } else {
        param(params.drop_first(), key)
    }
}

/// The text, or the fallback where there is none.
pub open spec fn or_text(s: Option<Seq<char>>, fallback: Seq<char>) -> Seq<char> {
    match s {
        Some(s) => s,
        None => fallback,
    }
}

/// Authentication mode of a descriptor: the `token` parameter where there is
/// one, else username and password with their defaults.
pub open spec fn auth_of(d: DescriptorView) -> WsAuthView {
    match param(d.params, "token"@) {
        Some(token) => WsAuthView::Token(token),
        None => WsAuthView::Plain(or_text(d.username, "root"@), or_text(d.password, "taosdata"@)),
    }
}

/// Address of a descriptor: its first candidate, else the fixed default.
pub open spec fn addr_of(d: DescriptorView) -> Seq<char> {
    if d.addresses.len() > 0 {
        address_text(d.addresses[0])
    } else {
        "localhost:6041"@
    }
}

/// What a parsed descriptor resolves to.
pub open spec fn resolve(d: DescriptorView) -> Result<WsInfoView, DsnErrorView> {
    match scheme_of(d.driver, d.protocol) {
        Some(scheme) => Ok(
            WsInfoView { scheme, addr: addr_of(d), auth: auth_of(d), database: d.database },
        ),
        None => Err(DsnErrorView::InvalidDriver(descriptor_text(d))),
    }
}

/// What a descriptor text resolves to: what its parsed form resolves to, or
/// why it has none.
pub open spec fn resolve_text(text: Seq<char>) -> Result<WsInfoView, DsnErrorView> {
    match parse_text(text) {
        Ok(d) => resolve(d),
        Err(e) => Err(e),
    }
}

/// The outcome of a resolution, as values.
pub open spec fn resolved_view(r: Result<WsInfo, DsnError>) -> Result<WsInfoView, DsnErrorView> {
    match r {
        Ok(info) => Ok(info@),
        Err(e) => Err(e@),
    }
}

/// An endpoint URL: scheme, address and path, and the token as the only
/// query parameter in token mode.
pub open spec fn endpoint(info: WsInfoView, path: Seq<char>) -> Seq<char> {
    let base = info.scheme.text() + "://"@ + info.addr + path;
    match info.auth {
        WsAuthView::Token(token) => base + "?token="@ + token,
        WsAuthView::Plain(_, _) => base,
    }
}

/// The handshake payload: the credentials of plain mode, the fixed default
/// credentials in token mode.
pub open spec fn conn_request(info: WsInfoView) -> WsConnReqView {
    match info.auth {
        WsAuthView::Token(_) => WsConnReqView {
            user: Some("root"@),
            password: Some("taosdata"@),
            db: info.database,
        },
        WsAuthView::Plain(user, pass) => WsConnReqView {
            user: Some(user),
            password: Some(pass),
            db: info.database,
        },
    }
}

fn text_is(s: &String, literal: &str) -> (b: bool)
    ensures
        b == (s@ == literal@),
{
    let other = String::from_str(literal);
    *s == other
}

fn scheme_for(driver: &String, protocol: &Option<String>) -> (s: Option<Scheme>)
    ensures
        s == scheme_of(driver@, opt_text(*protocol)),
{
    if text_is(driver, "ws") || text_is(driver, "http") {
        Some(Scheme::Ws)
    } else if text_is(driver, "wss") || text_is(driver, "https") {
        Some(Scheme::Wss)
    } else if text_is(driver, "taos") {
        match protocol {
            Some(p) => {
                if text_is(p, "ws") || text_is(p, "http") {
                    Some(Scheme::Ws)
                } else if text_is(p, "wss") || text_is(p, "https") {
                    Some(Scheme::Wss)
                } else {
                    None
                }
            },
            None => None,
        }
    } else {
        None
    }
}

fn find_param(params: &Vec<(String, String)>, key: &str) -> (v: Option<String>)
    ensures
        opt_text(v) == param(params@.map_values(|p: (String, String)| (p.0@, p.1@)), key@),
{
    let ghost all = params@.map_values(|p: (String, String)| (p.0@, p.1@));
    let mut i: usize = 0;
    assert(all.skip(0) == all);
    while i < params.len()
        invariant
            i <= params.len(),
            all == params@.map_values(|p: (String, String)| (p.0@, p.1@)),
            param(all, key@) == param(all.skip(i as int), key@),
        decreases params.len() - i,
    {
        let ghost rest = all.skip(i as int);
        assert(rest[0] == (params@[i as int].0@, params@[i as int].1@));
        assert(rest.drop_first() == all.skip(i + 1));
        if text_is(&params[i].0, key) {
            return Some(params[i].1.clone());
        }
        i += 1;
    }
    None
}

fn or_default(s: &Option<String>, fallback: &str) -> (r: String)
    ensures
        r@ == or_text(opt_text(*s), fallback@),
{
    match s {
        Some(s) => s.clone(),
        None => String::from_str(fallback),
    }
}

fn copy_opt(s: &Option<String>) -> (r: Option<String>)
    ensures
        opt_text(r) == opt_text(*s),
{
    match s {
        Some(s) => Some(s.clone()),
        None => None,
    }
}
impl WsInfo {
    /// Resolves a descriptor text: parses it, then resolves what was parsed.
    /// A text with an address that does not decode is refused unparsed.
    pub fn from_dsn(dsn: &str) -> (r: Result<WsInfo, DsnError>)
        ensures
            resolved_view(r) == resolve_text(dsn@),
    {
        match Descriptor::parse(dsn) {
            Ok(d) => WsInfo::from_descriptor(&d),
            Err(e) => Err(e),
        }
    }

    /// Resolves a parsed descriptor.
    pub fn from_descriptor(dsn: &Descriptor) -> (r: Result<WsInfo, DsnError>)
        ensures
            resolved_view(r) == resolve(dsn@),
    {
        let scheme = match scheme_for(&dsn.driver, &dsn.protocol) {
            Some(scheme) => scheme,
            None => {
                return Err(DsnError::InvalidDriver(dsn.text()));
            },
        };
        let token = find_param(&dsn.params, "token");
        let addr = if dsn.addresses.len() > 0 {
            dsn.addresses[0].text()
        } else {
            String::from_str("localhost:6041")
        };
        match token {
            Some(token) => Ok(
                WsInfo {
                    scheme,
                    addr,
                    auth: WsAuth::Token(token),
                    database: copy_opt(&dsn.database),
                },
            ),
            None => {
                let username = or_default(&dsn.username, "root");
                let password = or_default(&dsn.password, "taosdata");
                Ok(
                    WsInfo {
                        scheme,
                        addr,
                        auth: WsAuth::Plain(username, password),
                        database: copy_opt(&dsn.database),
                    },
                )
            },
        }
    }

    /// The transport scheme.
    pub fn scheme(&self) -> (s: Scheme)
        ensures
            s == self@.scheme,
    {
        self.scheme
    }

    /// The network address, `host:port`.
    pub fn addr(&self) -> (s: &String)
        ensures
            s@ == self@.addr,
    {
        &self.addr
    }

    /// The authentication mode.
    pub fn auth(&self) -> (a: &WsAuth)
        ensures
            a@ == self@.auth,
    {
        &self.auth
    }

    /// The default database, if one was named.
    pub fn database(&self) -> (d: &Option<String>)
        ensures
            opt_text(*d) == self@.database,
    {
        &self.database
    }

    fn endpoint_url(&self, path: &str) -> (url: String)
        ensures
            url@ == endpoint(self@, path@),
    {
        let mut url = String::from_str(self.scheme.as_str());
        url.append("://");
        url.append(self.addr.as_str());
        url.append(path);
        match &self.auth {
            WsAuth::Token(token) => {
                url.append("?token=");
                url.append(token.as_str());
            },
            WsAuth::Plain(_, _) => {},
        }
        url
    }

    /// URL of the query endpoint.
    pub fn to_query_url(&self) -> (url: String)
        ensures
            url@ == endpoint(self@, "/rest/ws"@),
    {
        self.endpoint_url("/rest/ws")
    }

    /// URL of the statement endpoint.
    pub fn to_stmt_url(&self) -> (url: String)
        ensures
            url@ == endpoint(self@, "/rest/stmt"@),
    {
        self.endpoint_url("/rest/stmt")
    }

    /// URL of the stream-subscription endpoint.
    pub fn to_tmq_url(&self) -> (url: String)
        ensures
            url@ == endpoint(self@, "/rest/tmq"@),
    {
        self.endpoint_url("/rest/tmq")
    }

    /// The payload of the handshake that opens a session.
    pub fn to_conn_request(&self) -> (req: WsConnReq)
        ensures
            req@ == conn_request(self@),
    {
        match &self.auth {
            WsAuth::Token(_) => WsConnReq {
                user: Some(String::from_str("root")),
                password: Some(String::from_str("taosdata")),
                db: copy_opt(&self.database),
            },
            WsAuth::Plain(user, pass) => WsConnReq {
                user: Some(user.clone()),
                password: Some(pass.clone()),
                db: copy_opt(&self.database),
            },
        }
    }
}


/// Whether a driver token is one of the four that name a scheme themselves.
pub open spec fn names_scheme(token: Seq<char>) -> bool {
    token == "ws"@ || token == "http"@ || token == "wss"@ || token == "https"@
}

/// The part of a URL after its first question mark, if it has one.
pub open spec fn query_of(url: Seq<char>) -> Option<Seq<char>> {
    if url.contains('?') {
        Some(url.skip(url.index_of_first('?')->0 + 1))
    } else {
        None
    }
}

/// The driver decides the scheme: `ws` and `http` resolve to the plain
/// scheme and `wss` and `https` to the TLS scheme, whatever the sub-protocol;
/// every other driver fails with `InvalidDriver` and the descriptor's
/// canonical text, unless it is `taos` with a sub-protocol that is one of
/// these four.
pub proof fn lemma_driver_decides_scheme(d: DescriptorView)
    ensures
        d.driver == "ws"@ || d.driver == "http"@ ==> resolve(d) is Ok && resolve(d)->Ok_0.scheme
            == Scheme::Ws,
        d.driver == "wss"@ || d.driver == "https"@ ==> resolve(d) is Ok && resolve(
            d,
        )->Ok_0.scheme == Scheme::Wss,
        !names_scheme(d.driver) && !(d.driver == "taos"@ && d.protocol is Some && names_scheme(
            d.protocol->0,
        )) ==> resolve(d) == Err::<WsInfoView, DsnErrorView>(DsnErrorView::InvalidDriver(descriptor_text(d))),
{
    reveal_strlit("ws");
    reveal_strlit("http");
    reveal_strlit("wss");
    reveal_strlit("https");
    assert("ws"@.len() == 2 && "wss"@.len() == 3 && "http"@.len() == 4 && "https"@.len() == 5);
}

/// Resolution is all or nothing: it yields a scheme that is one of the two,
/// or the `InvalidDriver` error; and what it yields besides the scheme does
/// not depend on the driver.
pub proof fn lemma_resolution_fails_closed(d: DescriptorView)
    ensures
        match resolve(d) {
            Ok(info) => (info.scheme == Scheme::Ws || info.scheme == Scheme::Wss) && info.addr
                == addr_of(d) && info.auth == auth_of(d) && info.database == d.database,
            Err(e) => e == DsnErrorView::InvalidDriver(descriptor_text(d)),
        },
{
}

proof fn lemma_no_question_mark_in_base(info: WsInfoView, path: Seq<char>)
    requires
        !info.addr.contains('?'),
        !path.contains('?'),
    ensures
        !(info.scheme.text() + "://"@ + info.addr + path).contains('?'),
{
    reveal_strlit("ws");
    reveal_strlit("wss");
    reveal_strlit("://");
    let base = info.scheme.text() + "://"@ + info.addr + path;
    assert forall|i: int| 0 <= i < base.len() implies base[i] != '?' by {
        let s = info.scheme.text();
        if i < s.len() {
            assert(base[i] == s[i]);
        } else if i < s.len() + 3 {
            assert(base[i] == "://"@[i - s.len()]);
        } else if i < s.len() + 3 + info.addr.len() {
            assert(base[i] == info.addr[i - s.len() - 3]);
            assert(info.addr.contains(info.addr[i - s.len() - 3]));
        } else {
            assert(base[i] == path[i - s.len() - 3 - info.addr.len()]);
            assert(path.contains(path[i - s.len() - 3 - info.addr.len()]));
        }
    }
}

/// The token is the only query parameter of an endpoint URL, and only in
/// token mode: where neither address nor path holds a question mark, the
/// query part of the URL is `token=` followed by the token in token mode, and
/// there is no query part in plain mode.
pub proof fn lemma_token_is_the_only_query(info: WsInfoView, path: Seq<char>)
    requires
        !info.addr.contains('?'),
        !path.contains('?'),
    ensures
        match info.auth {
            WsAuthView::Token(token) => query_of(endpoint(info, path)) == Some("token="@ + token),
            WsAuthView::Plain(_, _) => query_of(endpoint(info, path)) is None,
        },
{
    let base = info.scheme.text() + "://"@ + info.addr + path;
    lemma_no_question_mark_in_base(info, path);
    match info.auth {
        WsAuthView::Token(token) => {
            reveal_strlit("?token=");
            reveal_strlit("token=");
            let url = endpoint(info, path);
            let at = base.len() as int;
            assert(url == base + "?token="@ + token);
            assert(url[at] == '?');
            assert forall|j: int| 0 <= j < at implies url[j] != '?' by {
                assert(url[j] == base[j]);
                assert(base.contains(base[j]));
            }
            url.index_of_first_ensures('?');
            assert(url.contains('?'));
            let first = url.index_of_first('?')->0;
            assert(first == at) by {
                if first < at {
                    assert(url[first] == base[first]);
                } else if first > at {
                }
            }
            assert(url.skip(at + 1) =~= "token="@ + token);
        },
        WsAuthView::Plain(_, _) => {},
    }
}

/// An endpoint URL embeds no credentials: it is the same whatever username
/// and password the authentication mode carries.
pub proof fn lemma_url_embeds_no_credentials(
    info: WsInfoView,
    other: WsInfoView,
    path: Seq<char>,
)
    requires
        info.scheme == other.scheme,
        info.addr == other.addr,
        info.auth is Plain,
        other.auth is Plain,
    ensures
        endpoint(info, path) == endpoint(other, path),
        endpoint(info, path) == info.scheme.text() + "://"@ + info.addr + path,
{
}

/// A `token` parameter selects token mode and nothing else does; in plain
/// mode a missing username is `root` and a missing password is `taosdata`.
pub proof fn lemma_token_selects_mode(d: DescriptorView)
    ensures
        param(d.params, "token"@) is Some <==> auth_of(d) is Token,
        param(d.params, "token"@) matches Some(token) ==> auth_of(d) == WsAuthView::Token(token),
        param(d.params, "token"@) is None ==> auth_of(d) == WsAuthView::Plain(
            or_text(d.username, "root"@),
            or_text(d.password, "taosdata"@),
        ),
{
}

/// A descriptor with a `token` parameter resolves to a query URL whose query
/// part is that one parameter, `token=` and the token; a descriptor without
/// resolves to a query URL with no query part. The address is taken to hold
/// no question mark.
pub proof fn lemma_token_parameter_in_query_url(d: DescriptorView)
    requires
        resolve(d) is Ok,
        !addr_of(d).contains('?'),
    ensures
        match param(d.params, "token"@) {
            Some(token) => query_of(endpoint(resolve(d)->Ok_0, "/rest/ws"@)) == Some(
                "token="@ + token,
            ),
            None => query_of(endpoint(resolve(d)->Ok_0, "/rest/ws"@)) is None,
        },
{
    reveal_strlit("/rest/ws");
    lemma_token_is_the_only_query(resolve(d)->Ok_0, "/rest/ws"@);
}

/// Where every key stands once, as in a parsed descriptor, a parameter has
/// the value of its one entry: the parameters are a map.
pub proof fn lemma_param_of_map(params: Seq<(Seq<char>, Seq<char>)>, key: Seq<char>)
    requires
        keys_once(params),
    ensures
        match param(params, key) {
            Some(value) => params.contains((key, value)),
            None => forall|i: int| 0 <= i < params.len() ==> (#[trigger] params[i]).0 != key,
        },
        forall|i: int|
            0 <= i < params.len() && (#[trigger] params[i]).0 == key ==> param(params, key) == Some(
                params[i].1,
            ),
    decreases params.len(),
{
    if params.len() > 0 {
        let rest = params.drop_first();
        assert forall|i: int, j: int| 0 <= i < j < rest.len() implies (#[trigger] rest[i]).0 != (
        #[trigger] rest[j]).0 by {
            assert(rest[i] == params[i + 1] && rest[j] == params[j + 1]);
        }
        lemma_param_of_map(rest, key);
        if params[0].0 == key {
            assert(params[0] == (key, params[0].1));
            assert forall|i: int| 0 <= i < params.len() && (#[trigger] params[i]).0
                == key implies i == 0 by {
                if i > 0 {
                    assert(params[0].0 != params[i].0);
                }
            }
        } else {
            match param(rest, key) {
                Some(value) => {
                    let i = choose|i: int| 0 <= i < rest.len() && rest[i] == (key, value);
                    assert(params[i + 1] == (key, value));
                },
                None => {
                    assert forall|i: int| 0 <= i < params.len() implies (#[trigger] params[i]).0
                        != key by {
                        if i > 0 {
                            assert(rest[i - 1] == params[i]);
                        }
                    }
                },
            }
            assert forall|i: int| 0 <= i < params.len() && (#[trigger] params[i]).0
                == key implies param(params, key) == Some(params[i].1) by {
                assert(rest[i - 1] == params[i]);
            }
        }
    }
}

} // verus!
