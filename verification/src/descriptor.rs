//! The connection descriptor: one text that names driver, credentials,
//! addresses, database and parameters of a connection, and its parsed form.

use vstd::prelude::*;
use vstd::string::StringExecFns;
use vstd::string::StringSliceAdditionalSpecFns;
use vstd::utf8::encode_utf8;
use crate::text::decode;

verus! {

/// Why a descriptor could not be parsed or resolved.
#[derive(Debug, Clone, PartialEq, Eq)]
pub enum DsnError {
    /// The driver and sub-protocol select no WebSocket scheme; holds the
    /// descriptor's canonical text.
    InvalidDriver(String),
    /// The text is no descriptor; holds the parser's message.
    Malformed(String),
    /// An address of the text holds percent-escapes that decode to bytes
    /// that are no UTF-8; holds the text.
    UnsupportedEscape(String),
}

/// A descriptor error as a value.
pub enum DsnErrorView {
    InvalidDriver(Seq<char>),
    Malformed(Seq<char>),
    UnsupportedEscape(Seq<char>),
}

impl View for DsnError {
    type V = DsnErrorView;

    open spec fn view(&self) -> DsnErrorView {
        match self {
            DsnError::InvalidDriver(s) => DsnErrorView::InvalidDriver(s@),
            DsnError::Malformed(s) => DsnErrorView::Malformed(s@),
            DsnError::UnsupportedEscape(s) => DsnErrorView::UnsupportedEscape(s@),
        }
    }
}

impl DsnErrorView {
    /// The error as a sentence.
    pub open spec fn message(self) -> Seq<char> {
        match self {
            DsnErrorView::InvalidDriver(text) => "invalid driver "@ + text,
            DsnErrorView::Malformed(message) => message,
            DsnErrorView::UnsupportedEscape(text) => "unsupported escape in "@ + text,
        }
    }
}

impl DsnError {
    /// The error as a sentence.
    pub fn message(&self) -> (message: String)
        ensures
            message@ == self@.message(),
    {
        match self {
            DsnError::InvalidDriver(text) => {
                let mut message = String::from_str("invalid driver ");
                message.append(text.as_str());
                message
            },
            DsnError::Malformed(message) => message.clone(),
            DsnError::UnsupportedEscape(text) => {
                let mut message = String::from_str("unsupported escape in ");
                message.append(text.as_str());
                message
            },
        }
    }
}

/// One candidate address of a descriptor: a host with a port, of which
/// either may be missing, or the path of a socket.
#[derive(Debug, Clone, PartialEq, Eq)]
pub enum Address {
    Host { host: Option<String>, port: Option<u16> },
    Path(String),
}

/// An address as a value.
pub enum AddressView {
    Host { host: Option<Seq<char>>, port: Option<u16> },
    Path(Seq<char>),
}

impl View for Address {
    type V = AddressView;

    open spec fn view(&self) -> AddressView {
        match self {
            Address::Host { host, port } => AddressView::Host { host: opt_text(*host), port: *port },
            Address::Path(path) => AddressView::Path(path@),
        }
    }
}

/// A parsed connection descriptor, as the resolver reads it.
#[derive(Debug, Clone, PartialEq, Eq, Default)]
pub struct Descriptor {
    /// Driver token, the part before `://` and before any `+`.
    pub driver: String,
    /// Sub-protocol token, the part after `+`.
    pub protocol: Option<String>,
    pub username: Option<String>,
    pub password: Option<String>,
    /// Candidate addresses in the order given.
    pub addresses: Vec<Address>,
    /// The path of a descriptor that names a file in place of addresses.
    pub path: Option<String>,
    /// Default database.
    pub database: Option<String>,
    /// Free-form parameters as key and value. A parsed descriptor has every
    /// key once, in the order of the keys; where a key stands twice, the
    /// first entry counts.
    pub params: Vec<(String, String)>,
}

/// A parsed descriptor as a value.
pub struct DescriptorView {
    pub driver: Seq<char>,
    pub protocol: Option<Seq<char>>,
    pub username: Option<Seq<char>>,
    pub password: Option<Seq<char>>,
    pub addresses: Seq<AddressView>,
    pub path: Option<Seq<char>>,
    pub database: Option<Seq<char>>,
    pub params: Seq<(Seq<char>, Seq<char>)>,
}

/// An optional text as a value.
pub open spec fn opt_text(s: Option<String>) -> Option<Seq<char>> {
    match s {
        Some(s) => Some(s@),
        None => None,
    }
}

impl View for Descriptor {
    type V = DescriptorView;

    open spec fn view(&self) -> DescriptorView {
        DescriptorView {
            driver: self.driver@,
            protocol: opt_text(self.protocol),
            username: opt_text(self.username),
            password: opt_text(self.password),
            addresses: self.addresses@.map_values(|a: Address| a@),
            path: opt_text(self.path),
            database: opt_text(self.database),
            params: self.params@.map_values(|p: (String, String)| (p.0@, p.1@)),
        }
    }
}

/// Whether every key of the parameters stands once.
pub open spec fn keys_once(params: Seq<(Seq<char>, Seq<char>)>) -> bool {
    forall|i: int, j: int|
        0 <= i < j < params.len() ==> (#[trigger] params[i]).0 != (#[trigger] params[j]).0
}

/// The text of an address: host and port with a colon between them, or the
/// percent-encoded path.
pub uninterp spec fn address_text(address: AddressView) -> Seq<char>;

/// The canonical text of a descriptor.
pub uninterp spec fn descriptor_text(d: DescriptorView) -> Seq<char>;

/// The `Display` of `taos_query::Address`, on the address with the same
/// fields. Trusted: the text is a function of the fields alone.
#[verifier::external_body]
fn render_address(address: &Address) -> (text: String)
    ensures
        text@ == address_text(address@),
{
    match address.clone() {
        Address::Host { host, port } => taos_query::Address { host, port, path: None }.to_string(),
        Address::Path(p) => taos_query::Address { host: None, port: None, path: Some(p) }.to_string(),
    }
}

/// The `Display` of `taos_query::Dsn`, on the descriptor with the same
/// fields. Trusted: the text is a function of the fields alone.
#[verifier::external_body]
fn render_descriptor(d: &Descriptor) -> (text: String)
    ensures
        text@ == descriptor_text(d@),
{
    let d = d.clone();
    let address = |a: Address| match a {
        Address::Host { host, port } => taos_query::Address { host, port, path: None },
        Address::Path(p) => taos_query::Address { host: None, port: None, path: Some(p) },
    };
    taos_query::Dsn {
        driver: d.driver,
        protocol: d.protocol,
        username: d.username,
        password: d.password,
        addresses: d.addresses.into_iter().map(address).collect(),
        path: d.path,
        subject: d.database,
        params: d.params.into_iter().collect(),
    }.to_string()
}

impl Address {
    /// The address as text.
    pub fn text(&self) -> (text: String)
        ensures
            text@ == address_text(self@),
    {
        render_address(self)
    }
}

/// Whether the byte is a hexadecimal digit.
pub open spec fn is_hex(b: u8) -> bool {
    0x30 <= b <= 0x39 || 0x41 <= b <= 0x46 || 0x61 <= b <= 0x66
}

/// The value of a hexadecimal digit.
pub open spec fn hex_value(b: u8) -> int {
    if 0x30 <= b <= 0x39 {
        b - 0x30
    } else if 0x41 <= b <= 0x46 {
        b - 0x41 + 10
    } else {
        b - 0x61 + 10
    }
}

/// The bytes that a percent-encoded text stands for: a percent sign with two
/// hexadecimal digits behind it stands for the byte that the digits write,
/// every other byte for itself.
pub open spec fn percent_decoded(bytes: Seq<u8>) -> Seq<u8>
    decreases bytes.len(),
{
    if bytes.len() == 0 {
        bytes
    } else if bytes[0] == 0x25 && bytes.len() >= 3 && is_hex(bytes[1]) && is_hex(bytes[2]) {
        seq![(16 * hex_value(bytes[1]) + hex_value(bytes[2])) as u8] + percent_decoded(
            bytes.skip(3),
        )
    } else {
        seq![bytes[0]] + percent_decoded(bytes.skip(1))
    }
}

/// Whether the byte can stand in the host of an address: an ASCII letter or
/// digit, one of `_`, `-`, `.`, `%`, or a byte of a character beyond ASCII.
pub open spec fn segment_byte(b: u8) -> bool {
    ||| 0x30 <= b <= 0x39
    ||| 0x41 <= b <= 0x5A
    ||| 0x61 <= b <= 0x7A
    ||| b == 0x5F
    ||| b == 0x2D
    ||| b == 0x2E
    ||| b == 0x25
    ||| b >= 0x80
}

/// Whether the text has `://` at `k`, behind which addresses are named.
pub open spec fn opens_authority(bytes: Seq<u8>, k: int) -> bool {
    &&& 0 <= k
    &&& k + 3 <= bytes.len()
    &&& bytes[k] == 0x3A
    &&& bytes[k + 1] == 0x2F
    &&& bytes[k + 2] == 0x2F
}

/// Whether the byte ends the part in which addresses are named: `/`, `?`
/// or `#`.
pub open spec fn ends_authority(b: u8) -> bool {
    b == 0x2F || b == 0x3F || b == 0x23
}

/// Whether `p` lies where addresses are named: behind a `://` with none of
/// `/`, `?`, `#` between.
pub open spec fn in_authority(bytes: Seq<u8>, p: int) -> bool {
    exists|k: int|
        #[trigger] opens_authority(bytes, k) && k + 3 <= p <= bytes.len() && forall|i: int|
            k + 3 <= i < p ==> !ends_authority(#[trigger] bytes[i])
}

/// Whether an address can start at `p`: where addresses are named, right
/// behind the `://`, behind the `@` that ends the credentials, or behind the
/// `(` that ends a sub-protocol.
pub open spec fn starts_segment(bytes: Seq<u8>, p: int) -> bool {
    &&& in_authority(bytes, p)
    &&& opens_authority(bytes, p - 3) || bytes[p - 1] == 0x40 || bytes[p - 1] == 0x28
}

/// Whether the bytes from `p` to `e` are a segment: they can all stand in a
/// host, and the byte behind them, if there is one, cannot.
pub open spec fn is_segment(bytes: Seq<u8>, p: int, e: int) -> bool {
    &&& 0 <= p <= e <= bytes.len()
    &&& forall|i: int| p <= i < e ==> segment_byte(#[trigger] bytes[i])
    &&& e < bytes.len() ==> !segment_byte(bytes[e])
}

/// Whether all the bytes are ASCII.
pub open spec fn all_ascii(bytes: Seq<u8>) -> bool {
    forall|i: int| 0 <= i < bytes.len() ==> #[trigger] bytes[i] < 0x80
}

/// Whether a segment can be taken for an address: it holds no percent sign;
/// or it is ASCII with a colon behind it, so that it is a host with a port
/// and is not decoded; or its percent-escapes decode to UTF-8.
pub open spec fn segment_decodes(segment: Seq<u8>, colon_follows: bool) -> bool {
    ||| !segment.contains(0x25u8)
    ||| colon_follows && all_ascii(segment)
    ||| vstd::utf8::valid_utf8(percent_decoded(segment))
}

/// Whether every segment of the text at which an address can start can be
/// taken for one.
pub open spec fn addresses_decode(bytes: Seq<u8>) -> bool {
    forall|p: int, e: int|
        starts_segment(bytes, p) && #[trigger] is_segment(bytes, p, e) ==> segment_decodes(
            bytes.subrange(p, e),
            e < bytes.len() && bytes[e] == 0x3A,
        )
}

/// What the descriptor parser makes of a text: the parsed descriptor, or the
/// message of its error.
pub uninterp spec fn dsn_parse(text: Seq<char>) -> Result<DescriptorView, Seq<char>>;

/// What the parser handed back, as values.
pub open spec fn parsed_view(r: Result<Descriptor, String>) -> Result<DescriptorView, Seq<char>> {
    match r {
        Ok(d) => Ok(d@),
        Err(msg) => Err(msg@),
    }
}

/// What parsing a descriptor text comes to: the refusal of a text with an
/// address that does not decode, else what the parser makes of it.
pub open spec fn parse_text(text: Seq<char>) -> Result<DescriptorView, DsnErrorView> {
    if !addresses_decode(encode_utf8(text)) {
        Err(DsnErrorView::UnsupportedEscape(text))
    } else {
        match dsn_parse(text) {
            Ok(d) => Ok(d),
            Err(msg) => Err(DsnErrorView::Malformed(msg)),
        }
    }
}

/// The outcome of parsing, as values.
pub open spec fn parse_outcome(r: Result<Descriptor, DsnError>) -> Result<
    DescriptorView,
    DsnErrorView,
> {
    match r {
        Ok(d) => Ok(d@),
        Err(e) => Err(e@),
    }
}

/// Calls `taos_query::IntoDsn::into_dsn` on the text, the parser of the `mdsn`
/// crate. On success the parsed fields come back one for one, the
/// parameters in the order of their map; on failure the error's `Display`
/// text. Trusted: the outcome is a function of the text alone, and the
/// parameters of a parsed descriptor, which come out of a map, have every
/// key once. The parser panics in one place: on a first address without a
/// colon whose percent-escapes decode to bytes that are no UTF-8. An address
/// starts behind the `://`, or behind an `@` or a `(` that follows it before
/// any of `/`, `?`, `#`, and it ends where no byte of a host follows, which
/// is what the precondition goes by.
#[verifier::external_body]
fn parse_descriptor(dsn: &str) -> (r: Result<Descriptor, String>)
    requires
        addresses_decode(dsn.spec_bytes()),
    ensures
        parsed_view(r) == dsn_parse(dsn@),
        r matches Ok(d) ==> keys_once(d@.params),
{
    let d = taos_query::IntoDsn::into_dsn(dsn).map_err(|e| e.to_string())?;
    let address = |a: taos_query::Address| match a.path {
        Some(path) => Address::Path(path),
        None => Address::Host { host: a.host, port: a.port },
    };
    let addresses = d.addresses.into_iter().map(address).collect();
    let params = d.params.into_iter().collect();
    let (driver, protocol, username, password) = (d.driver, d.protocol, d.username, d.password);
    let (path, database) = (d.path, d.subject);
    Ok(Descriptor { driver, protocol, username, password, addresses, path, database, params })
}

fn is_hex_digit(b: u8) -> (r: bool)
    ensures
        r == is_hex(b),
{
    (0x30 <= b && b <= 0x39) || (0x41 <= b && b <= 0x46) || (0x61 <= b && b <= 0x66)
}

fn hex_digit_value(b: u8) -> (v: u8)
    requires
        is_hex(b),
    ensures
        v == hex_value(b),
        v < 16,
{
    if 0x30 <= b && b <= 0x39 {
        b - 0x30
    } else if 0x41 <= b && b <= 0x46 {
        b - 0x41 + 10
    } else {
        b - 0x61 + 10
    }
}

fn is_segment_byte(b: u8) -> (r: bool)
    ensures
        r == segment_byte(b),
{
    (0x30 <= b && b <= 0x39) || (0x41 <= b && b <= 0x5A) || (0x61 <= b && b <= 0x7A) || b == 0x5F
        || b == 0x2D || b == 0x2E || b == 0x25 || b >= 0x80
}

/// Decodes the percent-escapes of a text.
fn percent_decode(bytes: &[u8]) -> (decoded: Vec<u8>)
    ensures
        decoded@ == percent_decoded(bytes@),
{
    let mut decoded: Vec<u8> = Vec::new();
    let mut i: usize = 0;
    assert(bytes@.skip(0) == bytes@);
    while i < bytes.len()
        invariant
            i <= bytes.len(),
            percent_decoded(bytes@) == decoded@ + percent_decoded(bytes@.skip(i as int)),
        decreases bytes.len() - i,
    {
        let ghost rest = bytes@.skip(i as int);
        if bytes[i] == 0x25 && bytes.len() - i >= 3 && is_hex_digit(bytes[i + 1]) && is_hex_digit(
            bytes[i + 2],
        ) {
            let byte: u8 = 16 * hex_digit_value(bytes[i + 1]) + hex_digit_value(bytes[i + 2]);
            assert(rest.skip(3) == bytes@.skip(i + 3));
            assert(percent_decoded(rest) == seq![byte] + percent_decoded(rest.skip(3)));
            decoded.push(byte);
            i += 3;
        } else {
            assert(rest.skip(1) == bytes@.skip(i + 1));
            assert(percent_decoded(rest) == seq![bytes@[i as int]] + percent_decoded(rest.skip(1)));
            decoded.push(bytes[i]);
            i += 1;
        }
        assert(percent_decoded(bytes@) =~= decoded@ + percent_decoded(bytes@.skip(i as int)));
    }
    assert(percent_decoded(bytes@.skip(i as int)) =~= Seq::<u8>::empty());
    assert(decoded@ + Seq::<u8>::empty() =~= decoded@);
    decoded
}

fn holds_percent(bytes: &[u8]) -> (r: bool)
    ensures
        r == bytes@.contains(0x25u8),
{
    let mut i: usize = 0;
    while i < bytes.len()
        invariant
            i <= bytes.len(),
            forall|k: int| 0 <= k < i ==> bytes@[k] != 0x25,
        decreases bytes.len() - i,
    {
        if bytes[i] == 0x25 {
            return true;
        }
        i += 1;
    }
    false
}

fn is_all_ascii(bytes: &[u8]) -> (r: bool)
    ensures
        r == all_ascii(bytes@),
{
    let mut i: usize = 0;
    while i < bytes.len()
        invariant
            i <= bytes.len(),
            forall|k: int| 0 <= k < i ==> #[trigger] bytes@[k] < 0x80,
        decreases bytes.len() - i,
    {
        if bytes[i] >= 0x80 {
            return false;
        }
        i += 1;
    }
    true
}

fn check_segment(segment: &[u8], colon_follows: bool) -> (ok: bool)
    ensures
        ok == segment_decodes(segment@, colon_follows),
{
    if !holds_percent(segment) {
        return true;
    }
    if colon_follows && is_all_ascii(segment) {
        return true;
    }
    let decoded = percent_decode(segment);
    decode(decoded.as_slice()).is_ok()
}

/// A segment that starts at one place ends at one place.
proof fn lemma_segment_end(bytes: Seq<u8>, p: int, e: int, other: int)
    requires
        is_segment(bytes, p, e),
        is_segment(bytes, p, other),
    ensures
        e == other,
{
    if e < other {
        assert(segment_byte(bytes[e]));
    } else if other < e {
        assert(segment_byte(bytes[other]));
    }
}

fn opens_at(bytes: &[u8], end: usize) -> (r: bool)
    requires
        end <= bytes.len(),
    ensures
        r == opens_authority(bytes@, end - 3),
{
    end >= 3 && bytes[end - 3] == 0x3A && bytes[end - 2] == 0x2F && bytes[end - 1] == 0x2F
}

/// Where addresses are named is told byte by byte: behind a byte it is
/// where a `://` ends with that byte, and where it was before a byte that
/// does not end it.
proof fn lemma_authority_step(bytes: Seq<u8>, p: int)
    requires
        0 <= p < bytes.len(),
    ensures
        in_authority(bytes, p + 1) == (opens_authority(bytes, p - 2) || (in_authority(bytes, p)
            && !ends_authority(bytes[p]))),
{
    if opens_authority(bytes, p - 2) {
        assert(in_authority(bytes, p + 1));
    } else if in_authority(bytes, p) && !ends_authority(bytes[p]) {
        let k = choose|k: int|
            #[trigger] opens_authority(bytes, k) && k + 3 <= p <= bytes.len() && forall|i: int|
                k + 3 <= i < p ==> !ends_authority(#[trigger] bytes[i]);
        assert(opens_authority(bytes, k) && k + 3 <= p + 1 <= bytes.len() && forall|i: int|
            k + 3 <= i < p + 1 ==> !ends_authority(#[trigger] bytes[i]));
    }
    if in_authority(bytes, p + 1) {
        let k = choose|k: int|
            #[trigger] opens_authority(bytes, k) && k + 3 <= p + 1 <= bytes.len() && forall|i: int|
                k + 3 <= i < p + 1 ==> !ends_authority(#[trigger] bytes[i]);
        if k + 3 <= p {
            assert(!ends_authority(bytes[p]));
            assert(opens_authority(bytes, k) && k + 3 <= p <= bytes.len() && forall|i: int|
                k + 3 <= i < p ==> !ends_authority(#[trigger] bytes[i]));
        } else {
            assert(k == p - 2);
        }
    }
}

fn check_addresses(bytes: &[u8]) -> (ok: bool)
    ensures
        ok == addresses_decode(bytes@),
{
    let mut p: usize = 0;
    let mut inside = false;
    while p < bytes.len()
        invariant
            p <= bytes.len(),
            inside == in_authority(bytes@, p as int),
            forall|q: int, e: int|
                0 <= q < p && starts_segment(bytes@, q) && #[trigger] is_segment(bytes@, q, e)
                    ==> segment_decodes(
                    bytes@.subrange(q, e),
                    e < bytes@.len() && bytes@[e] == 0x3A,
                ),
        decreases bytes.len() - p,
    {
        if inside && (opens_at(bytes, p) || (p >= 1 && (bytes[p - 1] == 0x40 || bytes[p - 1]
            == 0x28))) {
            let mut e: usize = p;
            while e < bytes.len() && is_segment_byte(bytes[e])
                invariant
                    p <= e <= bytes.len(),
                    forall|i: int| p <= i < e ==> segment_byte(#[trigger] bytes@[i]),
                decreases bytes.len() - e,
            {
                e += 1;
            }
            assert(is_segment(bytes@, p as int, e as int));
            let colon_follows = e < bytes.len() && bytes[e] == 0x3A;
            if !check_segment(vstd::slice::slice_subrange(bytes, p, e), colon_follows) {
                assert(starts_segment(bytes@, p as int));
                return false;
            }
            assert forall|other: int| #[trigger]
                is_segment(bytes@, p as int, other) implies segment_decodes(
                bytes@.subrange(p as int, other),
                other < bytes@.len() && bytes@[other] == 0x3A,
            ) by {
                lemma_segment_end(bytes@, p as int, e as int, other);
            }
        }
        proof {
            lemma_authority_step(bytes@, p as int);
        }
        inside = opens_at(bytes, p + 1) || (inside && !(bytes[p] == 0x2F || bytes[p] == 0x3F
            || bytes[p] == 0x23));
        p += 1;
    }
    assert forall|q: int, e: int|
        starts_segment(bytes@, q) && #[trigger] is_segment(bytes@, q, e) implies segment_decodes(
        bytes@.subrange(q, e),
        e < bytes@.len() && bytes@[e] == 0x3A,
    ) by {
        if q == bytes@.len() {
            assert(bytes@.subrange(q, e).len() == 0);
        }
    }
    true
}

impl Descriptor {
    /// The canonical text of the descriptor.
    pub fn text(&self) -> (text: String)
        ensures
            text@ == descriptor_text(self@),
    {
        render_descriptor(self)
    }

    /// Parses a descriptor text. A text with an address whose
    /// percent-escapes decode to no UTF-8 is refused unparsed.
    pub fn parse(dsn: &str) -> (r: Result<Descriptor, DsnError>)
        ensures
            parse_outcome(r) == parse_text(dsn@),
            r matches Ok(d) ==> keys_once(d@.params),
    {
        if !check_addresses(dsn.as_bytes()) {
            return Err(DsnError::UnsupportedEscape(String::from_str(dsn)));
        }
        match parse_descriptor(dsn) {
            Ok(d) => Ok(d),
            Err(msg) => Err(DsnError::Malformed(msg)),
        }
    }
}

/// A text without a percent sign is never refused for its escapes.
pub proof fn lemma_plain_text_is_parsed(text: Seq<char>)
    requires
        !encode_utf8(text).contains(0x25u8),
    ensures
        addresses_decode(encode_utf8(text)),
        !(parse_text(text) is Err && parse_text(text)->Err_0 is UnsupportedEscape),
{
    let bytes = encode_utf8(text);
    assert forall|p: int, e: int|
        starts_segment(bytes, p) && #[trigger] is_segment(bytes, p, e) implies segment_decodes(
        bytes.subrange(p, e),
        e < bytes.len() && bytes[e] == 0x3A,
    ) by {
        let segment = bytes.subrange(p, e);
        if segment.contains(0x25u8) {
            let i = choose|i: int| 0 <= i < segment.len() && segment[i] == 0x25u8;
            assert(bytes[p + i] == 0x25u8);
            assert(bytes.contains(bytes[p + i]));
        }
    }
}

} // verus!
