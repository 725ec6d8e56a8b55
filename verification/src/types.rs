//! The two value types that every record carries: identifiers and instants.
//!
//! Identifiers are 128-bit values, written and read by the `uuid` crate; instants are
//! UNIX timestamps with a nanosecond part, checked and written by `chrono`.
use vstd::prelude::*;
use vstd::arithmetic::power::pow;

verus! {

/// Lower-case hexadecimal digit for `d` in `0..16`.
pub open spec fn hex_digit(d: int) -> char {
    if d < 10 {
        (d + 48) as char
    } else {
        (d + 87) as char
    }
}

/// The `k`-th hexadecimal digit of `v`, counting from the most significant (`k` in `0..32`).
pub open spec fn nibble(v: u128, k: int) -> int {
    (v as int / pow(16, (31 - k) as nat)) % 16
}

/// The 32 lower-case hexadecimal digits of `v`, most significant first.
pub open spec fn uuid_simple_text(v: u128) -> Seq<char> {
    Seq::new(32, |k: int| hex_digit(nibble(v, k)))
}

/// Number of hyphens that stand before position `i` of the hyphenated form.
pub open spec fn hyphens_before(i: int) -> int {
    (if i > 8 { 1int } else { 0int }) + (if i > 13 { 1int } else { 0int }) + (if i > 18 {
        1int
    } else {
        0int
    }) + (if i > 23 { 1int } else { 0int })
}

/// The hyphenated form `xxxxxxxx-xxxx-xxxx-xxxx-xxxxxxxxxxxx` of `v`, lower case.
pub open spec fn uuid_text(v: u128) -> Seq<char> {
    Seq::new(
        36,
        |i: int|
            if i == 8 || i == 13 || i == 18 || i == 23 {
                '-'
            } else {
                hex_digit(nibble(v, i - hyphens_before(i)))
            },
    )
}

/// What `uuid::Uuid::parse_str` gives for a text: the 128-bit value, or `None` where it
/// refuses the text.
pub uninterp spec fn uuid_parse(s: Seq<char>) -> Option<u128>;

/// A 128-bit identifier (a UUID), held as its value.
#[derive(Clone, Copy, PartialEq, Eq, Structural, Debug)]
pub struct Uuid {
    pub value: u128,
}

impl Uuid {
    /// The all-zero identifier.
    pub fn nil() -> (r: Uuid)
        ensures
            r.value == 0,
    {
        Uuid { value: 0 }
    }

    /// A fresh random identifier of version 4 and the RFC 4122 variant; its other 122 bits
    /// come from the random source, and nothing is stated of them.
    pub fn new_v4() -> (r: Uuid)
        ensures
            is_random_v4(r.value),
    {
        Uuid { value: uuid_new_v4() }
    }

    /// The hyphenated lower-case text: 36 characters, the 32 hexadecimal digits of the
    /// value in groups of 8, 4, 4, 4 and 12.
    pub fn to_string(&self) -> (r: String)
        ensures
            r@ == uuid_text(self.value),
    {
        uuid_hyphenated(self.value)
    }

    /// The 32 lower-case hexadecimal digits without hyphens.
    pub fn simple_string(&self) -> (r: String)
        ensures
            r@ == uuid_simple_text(self.value),
    {
        uuid_simple(self.value)
    }

    /// Reads an identifier in any form that `uuid::Uuid::parse_str` accepts; the error is
    /// that crate's message. It reads back the hyphenated form that `to_string` writes.
    pub fn parse_str(s: &str) -> (r: Result<Uuid, String>)
        ensures
            r matches Ok(u) ==> uuid_parse(s@) == Some(u.value),
            r is Err ==> uuid_parse(s@) is None,
            r matches Ok(u) || forall|v: u128| s@ != uuid_text(v),
            r matches Ok(u) ==> forall|v: u128| s@ == uuid_text(v) ==> u.value == v,
    {
        match uuid_parse_str(s) {
            Ok(v) => Ok(Uuid { value: v }),
            Err(e) => Err(e),
        }
    }
}

/// A random (version 4) UUID of the RFC 4122 variant: the version nibble (bits 76 to 79)
/// is `4` and the two top bits of the variant byte (bits 62 and 63) are `10`.
pub open spec fn is_random_v4(value: u128) -> bool {
    &&& (value >> 76u128) & 0xfu128 == 4u128
    &&& (value >> 62u128) & 0x3u128 == 2u128
}

/// `uuid::Uuid::new_v4`, as its 128-bit value: the crate masks random bits and sets the
/// version (`4`) and the variant (RFC 4122). Nothing is stated of the random bits.
#[verifier::external_body]
fn uuid_new_v4() -> (r: u128)
    ensures
        is_random_v4(r),
{
    uuid::Uuid::new_v4().as_u128()
}

/// `uuid::Uuid`'s `Display` (`to_string` of `uuid::Uuid::from_u128`): the hyphenated
/// lower-case form, stated digit by digit as `uuid_text`.
#[verifier::external_body]
fn uuid_hyphenated(value: u128) -> (r: String)
    ensures
        r@ == uuid_text(value),
{
    uuid::Uuid::from_u128(value).to_string()
}

/// `uuid::Uuid::simple(..).to_string()`: the 32 lower-case hexadecimal digits, stated as
/// `uuid_simple_text`.
#[verifier::external_body]
fn uuid_simple(value: u128) -> (r: String)
    ensures
        r@ == uuid_simple_text(value),
{
    uuid::Uuid::from_u128(value).simple().to_string()
}

/// `uuid::Uuid::parse_str`: the value it reads is the named `uuid_parse` of the text, and
/// it refuses exactly where that is `None`, with its error's text. Of the hyphenated form
/// that `Display` writes, it reads back the value written.
#[verifier::external_body]
fn uuid_parse_str(s: &str) -> (r: Result<u128, String>)
    ensures
        r matches Ok(v) ==> uuid_parse(s@) == Some(v),
        r is Err ==> uuid_parse(s@) is None,
        r matches Ok(v) || forall|w: u128| s@ != uuid_text(w),
        r matches Ok(v) ==> forall|w: u128| s@ == uuid_text(w) ==> v == w,
{
    match uuid::Uuid::parse_str(s) {
        Ok(u) => Ok(u.as_u128()),
        Err(e) => Err(e.to_string()),
    }
}

impl Default for Uuid {
    fn default() -> (r: Uuid)
        ensures
            r.value == 0,
    {
        Uuid { value: 0 }
    }
}

/// Whether `chrono::DateTime::<chrono::Utc>::from_timestamp(secs, nanos)` gives an instant:
/// the seconds lie between chrono's first instant (January 1, 262144 BCE, 00:00:00) and
/// its last (December 31, 262142 CE, 23:59:59), and the nanosecond part is below a
/// second, or below two seconds in the last second of a minute (a leap second).
pub open spec fn chrono_in_range(secs: i64, nanos: u32) -> bool {
    &&& -8_334_601_228_800 <= secs <= 8_210_266_876_799
    &&& (nanos < 1_000_000_000 || (nanos < 2_000_000_000 && secs % 60 == 59))
}

/// What chrono's `Display` of that instant writes, such as `2015-05-15 00:00:00 UTC`.
pub uninterp spec fn chrono_utc_text(secs: i64, nanos: u32) -> Seq<char>;

/// Asks `chrono::DateTime::from_timestamp` whether the pair names an instant.
#[verifier::external_body]
fn chrono_check(secs: i64, nanos: u32) -> (r: bool)
    ensures
        r == chrono_in_range(secs, nanos),
{
    chrono::DateTime::from_timestamp(secs, nanos).is_some()
}

/// The current instant from `chrono::Utc::now`, as its timestamp and nanosecond part;
/// chrono documents that this pair names the same instant again.
/// Nothing else is stated: the value comes from the clock.
#[verifier::external_body]
fn chrono_now() -> (r: Stamp)
    ensures
        chrono_in_range(r.secs, r.nanos),
{
    let now = chrono::Utc::now();
    Stamp { secs: now.timestamp(), nanos: now.timestamp_subsec_nanos() }
}

/// A timestamp and its nanosecond part, as the clock hands them over.
struct Stamp {
    secs: i64,
    nanos: u32,
}

/// chrono's `Display` of the instant `from_timestamp(secs, nanos)`.
#[verifier::external_body]
fn chrono_text(secs: i64, nanos: u32) -> (r: Option<String>)
    ensures
        r is Some || !chrono_in_range(secs, nanos),
        r matches Some(s) ==> s@ == chrono_utc_text(secs, nanos),
{
    chrono::DateTime::from_timestamp(secs, nanos).map(|d| d.to_string())
}

/// An instant in UTC: seconds since the UNIX epoch and the nanosecond part, always one
/// that chrono can represent.
#[derive(Clone, Copy, Debug)]
pub struct DateTime {
    secs: i64,
    nanos: u32,
}

impl DateTime {
    #[verifier::type_invariant]
    spec fn in_range(self) -> bool {
        chrono_in_range(self.secs, self.nanos)
    }

    pub closed spec fn spec_secs(self) -> i64 {
        self.secs
    }

    pub closed spec fn spec_nanos(self) -> u32 {
        self.nanos
    }

    /// The instant with this timestamp and nanosecond part, where chrono has one.
    pub fn from_timestamp(secs: i64, nanos: u32) -> (r: Option<DateTime>)
        ensures
            r is Some <==> chrono_in_range(secs, nanos),
            r matches Some(d) ==> d.spec_secs() == secs && d.spec_nanos() == nanos,
    {
        if chrono_check(secs, nanos) {
            Some(DateTime { secs, nanos })
        } else {
            None
        }
    }

    /// The current instant.
    pub fn now() -> (r: DateTime) {
        let stamp = chrono_now();
        DateTime { secs: stamp.secs, nanos: stamp.nanos }
    }

    /// Seconds since the UNIX epoch.
    pub fn timestamp(&self) -> (r: i64)
        ensures
            r == self.spec_secs(),
    {
        self.secs
    }

    /// The nanosecond part.
    pub fn timestamp_subsec_nanos(&self) -> (r: u32)
        ensures
            r == self.spec_nanos(),
    {
        self.nanos
    }

    /// Whether two instants are the same.
    pub fn same(&self, other: &DateTime) -> (r: bool)
        ensures
            r == (*self == *other),
    {
        self.secs == other.secs && self.nanos == other.nanos
    }

    /// The text chrono writes for this instant.
    pub fn to_string(&self) -> (r: String)
        ensures
            r@ == chrono_utc_text(self.spec_secs(), self.spec_nanos()),
    {
        proof {
            use_type_invariant(self);
        }
        match chrono_text(self.secs, self.nanos) {
            Some(s) => s,
            None => String::new(),
        }
    }
}

impl Default for DateTime {
    /// The UNIX epoch, as chrono's `Default` for `DateTime<Utc>`.
    fn default() -> (r: DateTime)
        ensures
            r.spec_secs() == 0 && r.spec_nanos() == 0,
    {
        let ok = chrono_check(0, 0);
        assert(ok);
        DateTime { secs: 0, nanos: 0 }
    }
}

} // verus!
