//! Event identity and timestamp derivation: a 128-bit time-ordered unique
//! identifier whose high bits carry a Unix millisecond timestamp, and the
//! recency window every ingested event must fall into.
use vstd::prelude::*;

use crate::ingest_event::IngestEventError;

verus! {

/// Latest Unix second the calendar backend can represent
/// (9999-12-31T23:59:59Z).
pub const MAX_CALENDAR_UNIX_SECONDS: i64 = 253402300799;

/// Seconds before the present beyond which an event is too old.
pub const MAX_SECONDS_BEFORE_PRESENT: i64 = 3600;

/// Seconds after the present beyond which an event is too far in the future.
pub const MAX_SECONDS_AFTER_PRESENT: i64 = 300;

/// A 128-bit time-ordered unique identifier (version 7 semantics): the top
/// 48 bits encode a Unix millisecond timestamp and bits 76..80 the version.
#[derive(Debug, Clone, Copy, PartialEq, Eq, Structural, Hash)]
pub struct EventId {
    bits: u128,
}

/// An event timestamp in Unix seconds, derived from an `EventId` and never
/// set independently.
#[derive(Debug, Clone, Copy, PartialEq, Eq, Structural, Hash)]
pub struct EventTimestamp {
    pub unix_seconds: i64,
}

impl View for EventId {
    type V = u128;

    closed spec fn view(&self) -> u128 {
        self.bits
    }
}

/// The version field of an identifier: the four bits at positions 76..80.
pub open spec fn spec_uuid_version(bits: u128) -> u128 {
    (bits >> 76u128) & 0xfu128
}

/// The Unix millisecond timestamp embedded in a time-ordered identifier:
/// its top 48 bits.
pub open spec fn spec_uuid_unix_millis(bits: u128) -> u128 {
    bits >> 80u128
}

/// The embedded timestamp in whole Unix seconds.
pub open spec fn spec_uuid_unix_seconds(bits: u128) -> int {
    spec_uuid_unix_millis(bits) as int / 1000
}

/// What deriving a timestamp from an identifier returns: the version must be
/// 7 and the embedded instant must be representable in the calendar.
pub open spec fn spec_try_uuid_datetime(bits: u128) -> Result<int, IngestEventError> {
    if spec_uuid_version(bits) != 7 {
        Err(IngestEventError::UuidVersion)
    } else if spec_uuid_unix_seconds(bits) > MAX_CALENDAR_UNIX_SECONDS as int {
        Err(IngestEventError::UuidTimestampConversion)
    } else {
        Ok(spec_uuid_unix_seconds(bits))
    }
}

/// Relates an executable derivation result to the specification-level one.
pub open spec fn ts_result_matches(
    r: Result<EventTimestamp, IngestEventError>,
    s: Result<int, IngestEventError>,
) -> bool {
    match (r, s) {
        (Ok(t), Ok(v)) => t.unix_seconds == v,
        (Err(a), Err(b)) => a == b,
        _ => false,
    }
}

impl EventId {
    /// Build an identifier from its 128-bit value.
    pub fn from_u128(bits: u128) -> (r: Self)
        ensures
            r@ == bits,
    {
        EventId { bits }
    }

    /// The identifier's 128-bit value.
    pub fn as_u128(&self) -> (r: u128)
        ensures
            r == self@,
    {
        self.bits
    }

    /// The identifier's version field.
    pub fn version(&self) -> (r: u8)
        ensures
            r as u128 == spec_uuid_version(self@),
    {
        let bits: u128 = self.bits;
        proof {
            assert((bits >> 76u128) & 0xfu128 <= 0xfu128) by (bit_vector);
        }
        ((bits >> 76u128) & 0xfu128) as u8
    }
}

/// The sixteen lowercase hexadecimal digit characters, in value order.
pub open spec fn spec_hex_digits() -> Seq<char> {
    seq!['0', '1', '2', '3', '4', '5', '6', '7', '8', '9', 'a', 'b', 'c', 'd', 'e', 'f']
}

/// The `i`-th nibble of a 128-bit value, counted from the most significant.
pub open spec fn spec_nibble(bits: u128, i: int) -> int {
    ((bits >> (((31 - i) * 4) as u128)) & 0xfu128) as int
}

/// The nibbles `start..start + count` of `bits` as lowercase hex characters.
pub open spec fn spec_hex_group(bits: u128, start: int, count: nat) -> Seq<char>
    decreases count,
{
    if count == 0 {
        Seq::empty()
    } else {
        seq![spec_hex_digits()[spec_nibble(bits, start)]] + spec_hex_group(
            bits,
            start + 1,
            (count - 1) as nat,
        )
    }
}

/// The canonical lowercase hyphenated rendering of a 128-bit identifier:
/// five hex groups of 8, 4, 4, 4 and 12 digits separated by hyphens.
pub open spec fn spec_hyphenated(bits: u128) -> Seq<char> {
    spec_hex_group(bits, 0, 8) + seq!['-'] + spec_hex_group(bits, 8, 4) + seq!['-']
        + spec_hex_group(bits, 12, 4) + seq!['-'] + spec_hex_group(bits, 16, 4) + seq!['-']
        + spec_hex_group(bits, 20, 12)
}

/// Every nibble is a value below sixteen, so it indexes a hex digit.
proof fn lemma_nibble_range(bits: u128, i: int)
    ensures
        0 <= spec_nibble(bits, i) < 16,
{
    let shift = ((31 - i) * 4) as u128;
    assert((bits >> shift) & 0xfu128 <= 0xfu128) by (bit_vector);
}

/// Extending a hex group by one digit appends the next nibble's character.
proof fn lemma_hex_group_snoc(bits: u128, start: int, count: nat)
    ensures
        spec_hex_group(bits, start, (count + 1) as nat) == spec_hex_group(bits, start, count)
            + seq![spec_hex_digits()[spec_nibble(bits, start + count)]],
    decreases count,
{
    lemma_nibble_range(bits, start + count);
    lemma_nibble_range(bits, start);
    if count == 0 {
        assert(spec_hex_group(bits, start + 1, 0nat) =~= Seq::<char>::empty());
        assert(spec_hex_group(bits, start, 1nat) =~= spec_hex_group(bits, start, 0nat)
            + seq![spec_hex_digits()[spec_nibble(bits, start)]]);
    } else {
        lemma_hex_group_snoc(bits, start + 1, (count - 1) as nat);
        assert(spec_hex_group(bits, start, (count + 1) as nat) =~= spec_hex_group(
            bits,
            start,
            count,
        ) + seq![spec_hex_digits()[spec_nibble(bits, start + count)]]);
    }
}

/// One lowercase hexadecimal digit as a string slice.
fn hex_digit_str(d: u8) -> (r: &'static str)
    requires
        d < 16,
    ensures
        r@ == seq![spec_hex_digits()[d as int]],
{
    proof {
        reveal_strlit("0");
        reveal_strlit("1");
        reveal_strlit("2");
        reveal_strlit("3");
        reveal_strlit("4");
        reveal_strlit("5");
        reveal_strlit("6");
        reveal_strlit("7");
        reveal_strlit("8");
        reveal_strlit("9");
        reveal_strlit("a");
        reveal_strlit("b");
        reveal_strlit("c");
        reveal_strlit("d");
        reveal_strlit("e");
        reveal_strlit("f");
    }
    let r: &'static str = match d {
        0 => "0",
        1 => "1",
        2 => "2",
        3 => "3",
        4 => "4",
        5 => "5",
        6 => "6",
        7 => "7",
        8 => "8",
        9 => "9",
        10 => "a",
        11 => "b",
        12 => "c",
        13 => "d",
        14 => "e",
        _ => "f",
    };
    proof {
        assert(r@ =~= seq![spec_hex_digits()[d as int]]);
    }
    r
}

/// The `i`-th nibble of `bits`, counted from the most significant.
fn nibble_of(bits: u128, i: usize) -> (r: u8)
    requires
        i < 32,
    ensures
        r as int == spec_nibble(bits, i as int),
        r < 16,
{
    let shift: u128 = ((31 - i) * 4) as u128;
    let wide: u128 = (bits >> shift) & 0xfu128;
    proof {
        assert((bits >> shift) & 0xfu128 <= 0xfu128) by (bit_vector);
    }
    wide as u8
}

/// Append the hex characters of nibbles `start..start + count` to `s`.
fn append_hex_group(s: &mut String, bits: u128, start: usize, count: usize)
    requires
        start + count <= 32,
    ensures
        final(s)@ == old(s)@ + spec_hex_group(bits, start as int, count as nat),
{
    proof {
        assert(s@ =~= old(s)@ + spec_hex_group(bits, start as int, 0nat));
    }
    let mut j: usize = 0;
    while j < count
        invariant
            start + count <= 32,
            0 <= j <= count,
            s@ == old(s)@ + spec_hex_group(bits, start as int, j as nat),
        decreases count - j,
    {
        let d = nibble_of(bits, start + j);
        s.append(hex_digit_str(d));
        proof {
            lemma_hex_group_snoc(bits, start as int, j as nat);
            assert(s@ =~= old(s)@ + spec_hex_group(bits, start as int, (j + 1) as nat));
        }
        j = j + 1;
    }
}

impl EventId {
    /// The canonical lowercase hyphenated string rendering of this
    /// identifier, proved to be exactly `spec_hyphenated` of its bits.
    pub fn to_hyphenated_string(&self) -> (r: String)
        ensures
            r@ == spec_hyphenated(self@),
    {
        let bits = self.bits;
        let mut s = String::from_str("");
        proof {
            reveal_strlit("");
            reveal_strlit("-");
            assert(s@ =~= Seq::<char>::empty());
            assert("-"@ =~= seq!['-']);
        }
        append_hex_group(&mut s, bits, 0, 8);
        s.append("-");
        append_hex_group(&mut s, bits, 8, 4);
        s.append("-");
        append_hex_group(&mut s, bits, 12, 4);
        s.append("-");
        append_hex_group(&mut s, bits, 16, 4);
        s.append("-");
        append_hex_group(&mut s, bits, 20, 12);
        proof {
            assert(s@ =~= spec_hyphenated(bits));
        }
        s
    }
}

/// Relies on `time::OffsetDateTime::now_utc` and `unix_timestamp`: the current
/// wall-clock time as Unix seconds. Nothing is assumed of the value returned.
#[verifier::external_body]
pub(crate) fn now_unix_seconds() -> i64 {
    time::OffsetDateTime::now_utc().unix_timestamp()
}

/// Relies on `time::OffsetDateTime::from_unix_timestamp`: for a non-negative
/// timestamp the conversion succeeds exactly when the instant is no later
/// than 9999-12-31T23:59:59Z (the backend's `Date::MAX`), and
/// `unix_timestamp` then returns the same second back.
#[verifier::external_body]
fn unix_seconds_to_calendar(seconds: i64) -> (r: Option<i64>)
    requires
        0 <= seconds,
    ensures
        r is Some <==> seconds <= MAX_CALENDAR_UNIX_SECONDS,
        r matches Some(s) ==> s == seconds,
{
    match time::OffsetDateTime::from_unix_timestamp(seconds) {
        Ok(dt) => Some(dt.unix_timestamp()),
        Err(_) => None,
    }
}

/// Derive the canonical event timestamp from an identifier. Fails with
/// `UuidVersion` when the identifier is not of the time-ordered (version 7)
/// kind, and with `UuidTimestampConversion` when the embedded instant cannot
/// be represented as a calendar timestamp.
pub fn try_uuid_datetime(id: EventId) -> (r: Result<EventTimestamp, IngestEventError>)
    ensures
        ts_result_matches(r, spec_try_uuid_datetime(id@)),
{
    if id.version() != 7 {
        return Err(IngestEventError::UuidVersion);
    }
    let bits = id.as_u128();
    let millis: u128 = bits >> 80u128;
    proof {
        assert(bits >> 80u128 <= 0xffff_ffff_ffffu128) by (bit_vector);
    }
    let seconds_wide: u128 = millis / 1000;
    let seconds: i64 = seconds_wide as i64;
    match unix_seconds_to_calendar(seconds) {
        Some(s) => Ok(EventTimestamp { unix_seconds: s }),
        None => Err(IngestEventError::UuidTimestampConversion),
    }
}

/// True when `ts` lies strictly inside the ingestion window around `now`,
/// both in Unix seconds: newer than one hour ago and older than five minutes
/// from now, with both boundaries excluded.
pub open spec fn spec_within_ingest_range(ts: int, now: int) -> bool {
    now - MAX_SECONDS_BEFORE_PRESENT < ts < now + MAX_SECONDS_AFTER_PRESENT
}

/// Decide whether an event timestamp is acceptable relative to the given
/// wall-clock instant.
pub fn is_ts_within_ingest_range_at(ts: EventTimestamp, now: i64) -> (r: bool)
    ensures
        r == spec_within_ingest_range(ts.unix_seconds as int, now as int),
{
    let ts_wide: i128 = ts.unix_seconds as i128;
    let now_wide: i128 = now as i128;
    now_wide - (MAX_SECONDS_BEFORE_PRESENT as i128) < ts_wide && ts_wide < now_wide + (
    MAX_SECONDS_AFTER_PRESENT as i128)
}

/// Decide whether an event timestamp is acceptable right now, against the
/// wall clock. Whatever instant the clock reports, the answer is exactly the
/// pure range check against that instant.
pub fn is_ts_within_ingest_range(ts: EventTimestamp) -> bool {
    let now = now_unix_seconds();
    is_ts_within_ingest_range_at(ts, now)
}

} // verus!
