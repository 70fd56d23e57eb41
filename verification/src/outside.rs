//! The calls into other crates, and into parts of std that have no
//! specification, that are shared over the library. Verus takes the contract of
//! each item here on trust; nothing in this file is proved.
use vstd::prelude::*;
use md5::Md5;
use rand::Rng;
use sha2::Digest;
use sha2::Sha256;

verus! {

/// The SHA-256 digest of the UTF-8 bytes of `data`, as lowercase hexadecimal.
pub uninterp spec fn sha256_digest_hex(data: Seq<char>) -> Seq<char>;

/// The MD5 digest of the UTF-8 bytes of `data`, as lowercase hexadecimal.
pub uninterp spec fn md5_digest_hex(data: Seq<char>) -> Seq<char>;

/// A digit of lowercase hexadecimal.
pub open spec fn is_lower_hex(c: char) -> bool {
    ('0' <= c && c <= '9') || ('a' <= c && c <= 'f')
}

/// Calls `sha2::Sha256::digest` on the bytes of `data` and formats the 32
/// bytes of output with `{:x}`. The result depends on `data` alone; it has 64
/// characters, each a lowercase hexadecimal digit.
#[verifier::external_body]
pub(crate) fn sha256_hex(data: &str) -> (r: String)
    ensures
        r@ == sha256_digest_hex(data@),
        r@.len() == 64,
        forall|i: int| 0 <= i < r@.len() ==> is_lower_hex(#[trigger] r@[i]),
{
    format!("{:x}", Sha256::digest(data.as_bytes()))
}

/// Calls `md5::Md5::digest` on the bytes of `data` and formats the 16 bytes
/// of output with `{:x}`. The result depends on `data` alone; it has 32
/// characters, each a lowercase hexadecimal digit.
#[verifier::external_body]
pub(crate) fn md5_hex(data: &str) -> (r: String)
    ensures
        r@ == md5_digest_hex(data@),
        r@.len() == 32,
        forall|i: int| 0 <= i < r@.len() ==> is_lower_hex(#[trigger] r@[i]),
{
    format!("{:x}", Md5::digest(data.as_bytes()))
}

/// Draws one `u32` from `rand::thread_rng()`. Nothing is known of the value.
#[verifier::external_body]
pub(crate) fn random_u32() -> u32 {
    rand::thread_rng().gen::<u32>()
}

/// `std::time::Instant`: a reading of the monotonic clock, opaque here.
#[verifier::external_type_specification]
#[verifier::external_body]
pub struct ExInstant(std::time::Instant);

/// Calls `std::time::Instant::now`.
#[verifier::external_body]
pub(crate) fn instant_now() -> std::time::Instant {
    std::time::Instant::now()
}

/// Calls `Instant::elapsed`: the time since `start` was read. Nothing is
/// known of the duration.
#[verifier::external_body]
pub(crate) fn elapsed_since(start: &std::time::Instant) -> std::time::Duration {
    start.elapsed()
}

/// Calls `Duration::as_millis`: the whole milliseconds of the duration.
/// Nothing is known of the number.
#[verifier::external_body]
pub(crate) fn duration_millis(duration: &std::time::Duration) -> u128 {
    duration.as_millis()
}

/// Calls `Duration::as_secs`: the whole seconds of the duration. Nothing is
/// known of the number.
#[verifier::external_body]
pub(crate) fn duration_seconds(duration: &std::time::Duration) -> u64 {
    duration.as_secs()
}

/// Renders a `Duration` with `{:?}`. Nothing is known of the text.
#[verifier::external_body]
pub(crate) fn duration_text(duration: &std::time::Duration) -> String {
    format!("{:?}", duration)
}

/// Renders an `Instant` with `{:?}`. Nothing is known of the text.
#[verifier::external_body]
pub(crate) fn instant_text(instant: &std::time::Instant) -> String {
    format!("{:?}", instant)
}

/// `std::time::SystemTime`: a reading of the system clock, opaque here.
#[verifier::external_type_specification]
#[verifier::external_body]
pub struct ExSystemTime(std::time::SystemTime);

/// Calls `std::time::SystemTime::now`.
#[verifier::external_body]
pub(crate) fn system_now() -> std::time::SystemTime {
    std::time::SystemTime::now()
}

/// Calls `SystemTime::duration_since` with `UNIX_EPOCH`: the time from the
/// start of 1970 to the reading, `None` if the reading lies before it.
/// Nothing is known of the duration.
#[verifier::external_body]
pub(crate) fn since_epoch(reading: &std::time::SystemTime) -> Option<std::time::Duration> {
    reading.duration_since(std::time::UNIX_EPOCH).ok()
}

/// Whether `pattern` compiles as a regular expression and, if it does,
/// whether it matches anywhere in `text`.
pub uninterp spec fn regex_verdict(pattern: Seq<char>, text: Seq<char>) -> Option<bool>;

/// Compiles `pattern` with `regex::Regex::new` and asks `Regex::is_match` of
/// `text`. `None` stands for a pattern that the crate rejects. The result
/// depends on the two strings alone.
#[verifier::external_body]
pub(crate) fn regex_is_match(pattern: &str, text: &str) -> (r: Option<bool>)
    ensures
        r == regex_verdict(pattern@, text@),
{
    match regex::Regex::new(pattern) {
        Ok(re) => Some(re.is_match(text)),
        Err(_) => None,
    }
}

/// Whether `needle` occurs in `hay` as a run of neighbouring characters.
pub open spec fn occurs_in(hay: Seq<char>, needle: Seq<char>) -> bool {
    exists|i: int|
        0 <= i <= hay.len() - needle.len() && #[trigger] hay.subrange(i, i + needle.len())
            == needle
}

/// Calls `str::contains` with a string as the pattern: true exactly when the
/// pattern is a substring.
#[verifier::external_body]
pub(crate) fn text_contains(hay: &str, needle: &str) -> (r: bool)
    ensures
        r == occurs_in(hay@, needle@),
{
    hay.contains(needle)
}

/// Reads `chrono::Local::now` and renders it with `to_rfc3339`. Nothing is
/// known of the text.
#[verifier::external_body]
pub(crate) fn local_timestamp() -> String {
    chrono::Local::now().to_rfc3339()
}

} // verus!
