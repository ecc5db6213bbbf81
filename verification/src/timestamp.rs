//! Time precision of a result set and the rendering of raw timestamps.

use vstd::prelude::*;
use vstd::string::StringSliceAdditionalSpecFns;
use vstd::utf8::is_ascii_chars;

verus! {

/// The unit in which a result set counts time since the epoch.
#[derive(Debug, Clone, Copy, PartialEq, Eq, Structural)]
pub enum Precision {
    Millisecond,
    Microsecond,
    Nanosecond,
}

impl Precision {
    /// The number by which foreign callers know the precision.
    pub open spec fn tag(self) -> int {
        match self {
            Precision::Millisecond => 0,
            Precision::Microsecond => 1,
            Precision::Nanosecond => 2,
        }
    }

    /// The number by which foreign callers know the precision.
    pub fn as_i32(self) -> (tag: i32)
        ensures
            tag == self.tag(),
    {
        match self {
            Precision::Millisecond => 0,
            Precision::Microsecond => 1,
            Precision::Nanosecond => 2,
        }
    }

    /// The precision of a number, where the number names one.
    pub fn from_u8(tag: u8) -> (p: Option<Precision>)
        ensures
            tag <= 2 <==> p is Some,
            p matches Some(precision) ==> precision.tag() == tag,
    {
        match tag {
            0 => Some(Precision::Millisecond),
            1 => Some(Precision::Microsecond),
            2 => Some(Precision::Nanosecond),
            _ => None,
        }
    }
}

/// Seconds from the epoch to the first instant of the year 1.
pub const FIRST_SECOND: i64 = -62_135_596_800;

/// Seconds from the epoch to the first instant of the year 9999.
pub const LAST_SECOND: i64 = 253_370_764_800;

/// Whether a raw timestamp of the precision with this number can be
/// rendered: the number names a precision and the instant lies in the years 1
/// to 9998, so that its local time has a year of four digits.
pub open spec fn renderable(raw: i64, tag: u8) -> bool {
    match tag {
        0 => FIRST_SECOND * 1_000 <= raw <= LAST_SECOND * 1_000,
        1 => FIRST_SECOND * 1_000_000 <= raw <= LAST_SECOND * 1_000_000,
        2 => true,
        _ => false,
    }
}

/// The number of fractional-second digits of the precision with this number.
pub open spec fn digits_of(tag: u8) -> int {
    match tag {
        0 => 3,
        1 => 6,
        _ => 9,
    }
}

/// Length of a rendered timestamp that ends in a numeric zone offset: date,
/// `T`, time, the point and the fraction, then sign, hours, colon, minutes.
pub open spec fn offset_length(tag: u8) -> int {
    26 + digits_of(tag)
}

/// Length of a rendered timestamp that ends in the zone letter.
pub open spec fn letter_length(tag: u8) -> int {
    21 + digits_of(tag)
}

/// Length of the rendering at a zone offset: the zone letter stands only
/// where it was asked for and the offset is zero.
pub open spec fn text_length(tag: u8, offset: i32, use_z: bool) -> int {
    if use_z && offset == 0 {
        letter_length(tag)
    } else {
        offset_length(tag)
    }
}

/// The RFC 3339 text of an instant in the zone that is `offset` seconds east
/// of UTC, with the zone letter in place of a zero offset if `use_z`.
pub uninterp spec fn rfc3339_text(raw: i64, tag: u8, offset: i32, use_z: bool) -> Seq<char>;

/// The seconds that the machine's time zone is east of UTC at the instant:
/// `offset().local_minus_utc()` of what `to_datetime_with_tz` of
/// `taos_query::common::Timestamp` gives. It depends on the machine; trusted
/// is only that it is less than a day either way. The precondition keeps to
/// what can be rendered, outside of which the calls panic.
#[verifier::external_body]
fn local_offset(raw: i64, tag: u8) -> (seconds: i32)
    requires
        renderable(raw, tag),
    ensures
        -86_400 < seconds < 86_400,
{
    let precision = taos_query::common::Precision::from_u8(tag);
    taos_query::common::Timestamp::new(raw, precision).to_datetime_with_tz().offset().local_minus_utc()
}

/// Renders the instant at a zone offset: takes `to_naive_datetime` of a
/// `taos_query::common::Timestamp` of the precision that
/// `taos_query::common::Precision::from_u8` gives, puts it in the zone of
/// `chrono::FixedOffset::east_opt` and formats it with `to_rfc3339_opts`.
/// Trusted: the text is a function of the arguments, it is ASCII, and it has
/// the length of the format. The precondition keeps to the numbers that name
/// a precision, to the years 1 to 9998 and to offsets of less than a day: on
/// others the calls panic, and a year of more than four digits is rendered
/// longer.
#[verifier::external_body]
fn render_at(raw: i64, tag: u8, offset: i32, use_z: bool) -> (text: String)
    requires
        renderable(raw, tag),
        -86_400 < offset < 86_400,
    ensures
        text@ == rfc3339_text(raw, tag, offset, use_z),
        is_ascii_chars(text@),
        text@.len() == text_length(tag, offset, use_z),
{
    let precision = taos_query::common::Precision::from_u8(tag);
    let utc = taos_query::common::Timestamp::new(raw, precision).to_naive_datetime();
    let zone = chrono::FixedOffset::east_opt(offset).unwrap();
    chrono::TimeZone::from_utc_datetime(&zone, &utc).to_rfc3339_opts(
        precision.to_seconds_format(),
        use_z,
    )
}

fn is_renderable(raw: i64, tag: u8) -> (ok: bool)
    ensures
        ok == renderable(raw, tag),
{
    match tag {
        0 => FIRST_SECOND * 1_000 <= raw && raw <= LAST_SECOND * 1_000,
        1 => FIRST_SECOND * 1_000_000 <= raw && raw <= LAST_SECOND * 1_000_000,
        2 => true,
        _ => false,
    }
}

/// What a buffer holds after a text was written to its start: the text, then
/// the rest of what it held. A text longer than the buffer is not written.
pub open spec fn written_over(old: Seq<u8>, text: Seq<u8>) -> Seq<u8> {
    if text.len() <= old.len() {
        text + old.skip(text.len() as int)
    } else {
        old
    }
}

/// Writes the text to the start of the buffer if the buffer holds it whole,
/// and returns the number of bytes written. No terminator is written.
pub fn write_text(dest: &mut Vec<u8>, text: &[u8]) -> (written: usize)
    ensures
        final(dest)@ == written_over(old(dest)@, text@),
        written == if text@.len() <= old(dest)@.len() {
            text@.len()
        } else {
            0
        },
{
    if text.len() > dest.len() {
        return 0;
    }
    let mut i: usize = 0;
    while i < text.len()
        invariant
            i <= text.len(),
            text.len() <= dest.len(),
            dest@.len() == old(dest)@.len(),
            forall|k: int| 0 <= k < i ==> dest@[k] == text@[k],
            forall|k: int| i <= k < dest@.len() ==> dest@[k] == old(dest)@[k],
        decreases text.len() - i,
    {
        dest[i] = text[i];
        i += 1;
    }
    assert(dest@ =~= written_over(old(dest)@, text@));
    text.len()
}

/// Whether the bytes are the rendering of the instant at the zone offset: the
/// text of that rendering, which is ASCII and has the length of the format.
pub open spec fn is_rendering(bytes: Seq<u8>, raw: i64, tag: u8, offset: i32, use_z: bool) -> bool {
    &&& bytes == vstd::utf8::encode_utf8(rfc3339_text(raw, tag, offset, use_z))
    &&& bytes.len() == text_length(tag, offset, use_z)
    &&& forall|i: int| 0 <= i < bytes.len() ==> #[trigger] bytes[i] < 0x80
}

/// Renders a raw timestamp as an RFC 3339 date and time and writes the text,
/// without a terminator, to the start of the buffer. `precision` names the
/// unit by its low eight bits. With `use_z` the time is UTC and ends in the
/// letter `Z`; without, it is the time of the machine's zone and ends in
/// that zone's offset. Returns the number of bytes written: zero, with the
/// buffer as it was, where the timestamp cannot be rendered or the buffer is
/// too short for the text.
pub fn ws_timestamp_to_rfc3339(dest: &mut Vec<u8>, raw: i64, precision: i32, use_z: bool) -> (written:
    usize)
    ensures
        !renderable(raw, precision as u8) ==> written == 0 && final(dest)@ == old(dest)@,
        renderable(raw, precision as u8) && use_z ==> final(dest)@ == written_over(
            old(dest)@,
            vstd::utf8::encode_utf8(rfc3339_text(raw, precision as u8, 0, true)),
        ) && written == if letter_length(precision as u8) <= old(dest)@.len() {
            letter_length(precision as u8)
        } else {
            0
        },
        renderable(raw, precision as u8) ==> exists|offset: i32, text: Seq<u8>|
            {
                &&& -86_400 < offset < 86_400
                &&& use_z ==> offset == 0
                &&& #[trigger] is_rendering(text, raw, precision as u8, offset, use_z)
                &&& final(dest)@ == written_over(old(dest)@, text)
                &&& written == if text.len() <= old(dest)@.len() {
                    text.len()
                } else {
                    0
                }
            },
{
    let tag: u8 = #[verifier::truncate]
    (precision as u8);
    if !is_renderable(raw, tag) {
        return 0;
    }
    let offset: i32 = if use_z {
        0
    } else {
        local_offset(raw, tag)
    };
    let text = render_at(raw, tag, offset, use_z);
    let rendered = text.as_str();
    let bytes = rendered.as_bytes();
    proof {
        vstd::string::is_ascii_spec_bytes(rendered);
    }
    let written = write_text(dest, bytes);
    assert(is_rendering(bytes@, raw, tag, offset, use_z));
    written
}

/// With the zone letter asked for, the text does not depend on the machine:
/// it is the rendering in UTC, of the length that ends in the letter.
pub proof fn lemma_zone_letter_is_utc(text: Seq<u8>, raw: i64, tag: u8, offset: i32)
    requires
        is_rendering(text, raw, tag, offset, true),
        offset == 0,
    ensures
        text == vstd::utf8::encode_utf8(rfc3339_text(raw, tag, 0, true)),
        text.len() == letter_length(tag),
{
}

/// A buffer of the longer length of the format holds every rendering of the
/// precision.
pub proof fn lemma_offset_length_suffices(
    text: Seq<u8>,
    raw: i64,
    tag: u8,
    offset: i32,
    use_z: bool,
)
    requires
        is_rendering(text, raw, tag, offset, use_z),
    ensures
        text.len() <= offset_length(tag),
        text.len() > 0,
{
}

} // verus!
