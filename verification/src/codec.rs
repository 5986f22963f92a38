//! Trusted boundary to the outside crates whose results the library uses:
//! SHA-256 (`sha2`), standard Base64 (`base64`), the CSV writer (`csv`),
//! UTF-8 string building (std) and the short-symbol encoding of the Soroban
//! SDK (`soroban_sdk`).
//!
//! Nothing here is proved: each item below states what the outside crate's
//! source and documentation show, and the rest of the library is verified
//! against those statements.

use vstd::prelude::*;

verus! {

/// The SHA-256 digest of a byte string.
pub uninterp spec fn sha256_digest(data: Seq<u8>) -> Seq<u8>;

/// The character of a 6-bit value in the standard Base64 alphabet:
/// `A-Z`, `a-z`, `0-9`, `+`, `/`.
pub open spec fn base64_char(v: int) -> u8 {
    if v < 26 {
        (65 + v) as u8
    } else if v < 52 {
        (97 + v - 26) as u8
    } else if v < 62 {
        (48 + v - 52) as u8
    } else if v == 62 {
        43u8
    } else {
        47u8
    }
}

/// The standard (RFC 4648, padded) Base64 encoding of a byte string, as
/// ASCII bytes: each group of three bytes becomes the characters of its four
/// 6-bit values, most significant first; a last group of one or two bytes
/// gives two or three characters followed by `=` padding to four.
pub open spec fn base64_standard_encoding(data: Seq<u8>) -> Seq<u8>
    decreases data.len(),
{
    if data.len() == 0 {
        Seq::empty()
    } else if data.len() == 1 {
        let b0 = data[0] as int;
        seq![base64_char(b0 / 4), base64_char((b0 % 4) * 16), 61u8, 61u8]
    } else if data.len() == 2 {
        let b0 = data[0] as int;
        let b1 = data[1] as int;
        seq![base64_char(b0 / 4), base64_char((b0 % 4) * 16 + b1 / 16), base64_char((b1 % 16) * 4), 61u8]
    } else {
        let b0 = data[0] as int;
        let b1 = data[1] as int;
        let b2 = data[2] as int;
        seq![
            base64_char(b0 / 4),
            base64_char((b0 % 4) * 16 + b1 / 16),
            base64_char((b1 % 16) * 4 + b2 / 64),
            base64_char(b2 % 64),
        ] + base64_standard_encoding(data.skip(3))
    }
}

/// The result of decoding bytes with the standard Base64 engine: the decoded
/// bytes, or `None` where the engine reports an error.
pub uninterp spec fn base64_standard_decoding(input: Seq<u8>) -> Option<Seq<u8>>;

/// The 6-bit code of a short-symbol character: `_` is 1, `0-9` are 2..11,
/// `A-Z` are 12..37 and `a-z` are 38..63.
pub open spec fn symbol_char_code(c: char) -> nat {
    if c == '_' {
        1
    } else if '0' <= c && c <= '9' {
        (c as int - 48 + 2) as nat
    } else if 'A' <= c && c <= 'Z' {
        (c as int - 65 + 12) as nat
    } else {
        (c as int - 97 + 38) as nat
    }
}

/// The body of a short symbol: the character codes packed six bits each,
/// first character most significant.
pub open spec fn symbol_body(name: Seq<char>) -> nat
    decreases name.len(),
{
    if name.len() == 0 {
        0
    } else {
        symbol_body(name.drop_last()) * 64 + symbol_char_code(name.last())
    }
}

/// The 64-bit payload of the `Val` that represents a short symbol: the body
/// shifted past the 8-bit tag, and the small-symbol tag 14.
pub open spec fn short_symbol_payload(name: Seq<char>) -> u64 {
    (symbol_body(name) * 256 + 14) as u64
}

/// Whether a character may appear in a short symbol: `_`, `0-9`, `A-Z`, `a-z`.
pub open spec fn is_symbol_char(c: char) -> bool {
    c == '_' || ('0' <= c && c <= '9') || ('A' <= c && c <= 'Z') || ('a' <= c && c <= 'z')
}

/// Whether a string can be a short symbol: at most nine symbol characters.
pub open spec fn is_short_symbol(name: Seq<char>) -> bool {
    name.len() <= 9 && forall|i: int| 0 <= i < name.len() ==> is_symbol_char(#[trigger] name[i])
}

/// Whether every byte is ASCII.
pub open spec fn all_ascii(bytes: Seq<u8>) -> bool {
    forall|i: int| 0 <= i < bytes.len() ==> #[trigger] bytes[i] < 128
}

/// The characters that ASCII bytes stand for.
pub open spec fn ascii_chars(bytes: Seq<u8>) -> Seq<char> {
    Seq::new(bytes.len(), |i: int| bytes[i] as char)
}

/// Length of the padded standard Base64 encoding of `n` bytes.
pub open spec fn base64_padded_len(n: int) -> int {
    4 * ((n + 2) / 3)
}

/// Calls `sha2::Sha256::digest`. Claimed: the result is the SHA-256 digest
/// of `data` and is 32 bytes long, as the `Sha256` output size fixes.
#[verifier::external_body]
pub(crate) fn sha256(data: &[u8]) -> (r: Vec<u8>)
    ensures
        r@ == sha256_digest(data@),
        r@.len() == 32,
{
    <sha2::Sha256 as sha2::Digest>::digest(data).to_vec()
}

/// The standard Base64 encoding is `4 * ceil(n / 3)` bytes long and ASCII.
pub proof fn lemma_base64_encoding_shape(data: Seq<u8>)
    ensures
        base64_standard_encoding(data).len() == base64_padded_len(data.len() as int),
        all_ascii(base64_standard_encoding(data)),
    decreases data.len(),
{
    if data.len() >= 3 {
        lemma_base64_encoding_shape(data.skip(3));
        let e = base64_standard_encoding(data);
        let rest = base64_standard_encoding(data.skip(3));
        assert forall|i: int| 0 <= i < e.len() implies #[trigger] e[i] < 128 by {
            if i >= 4 {
                assert(e[i] == rest[i - 4]);
            }
        }
    }
}

/// Calls `base64::Engine::encode` on `base64::engine::general_purpose::STANDARD`.
/// Claimed: the result is the standard padded Base64 encoding of `data`, as
/// `base64_standard_encoding` spells it out. The engine panics where the
/// encoded length `4 * ceil(n / 3)` overflows `usize`, which `requires`
/// rules out.
#[verifier::external_body]
pub(crate) fn base64_encode(data: &[u8]) -> (r: Vec<u8>)
    requires
        base64_padded_len(data@.len() as int) <= usize::MAX,
    ensures
        r@ == base64_standard_encoding(data@),
{
    base64::Engine::encode(&base64::engine::general_purpose::STANDARD, data).into_bytes()
}

/// Calls `base64::Engine::decode` on `base64::engine::general_purpose::STANDARD`.
/// Claimed: `Ok` exactly when decoding succeeds, with the decoded bytes, and
/// decoding the engine's own encoding of some bytes gives those bytes back.
/// Which `DecodeError` comes back on failure is not stated.
#[verifier::external_body]
pub(crate) fn base64_decode(input: &[u8]) -> (r: Result<Vec<u8>, base64::DecodeError>)
    ensures
        r is Ok <==> base64_standard_decoding(input@) is Some,
        r matches Ok(v) ==> v@ == base64_standard_decoding(input@)->Some_0,
        r is Ok ==> forall|b: Seq<u8>| #[trigger] base64_standard_encoding(b) == input@ ==> r->Ok_0@ == b,
        (exists|b: Seq<u8>| #[trigger] base64_standard_encoding(b) == input@) ==> r is Ok,
{
    base64::Engine::decode(&base64::engine::general_purpose::STANDARD, input)
}

/// Calls `<base64::DecodeError as ToString>::to_string`. Nothing is claimed
/// of the message text.
#[verifier::external_body]
pub(crate) fn decode_error_message(e: &base64::DecodeError) -> String {
    e.to_string()
}

/// Calls `String::from_utf8`. Claimed: ASCII bytes are valid UTF-8, each
/// byte becoming the character with that code.
#[verifier::external_body]
pub(crate) fn string_from_ascii(bytes: Vec<u8>) -> (r: String)
    requires
        all_ascii(bytes@),
    ensures
        r@ == ascii_chars(bytes@),
{
    match String::from_utf8(bytes) {
        Ok(s) => s,
        Err(_) => String::new(),
    }
}

/// Calls `soroban_sdk::Symbol::short` and reads the payload of its `Val`
/// (`Val::get_payload`). Claimed: the payload is the small-symbol encoding
/// `short_symbol_payload` (`SymbolSmall::try_from_bytes` packs the 6-bit
/// character codes, `Val::from_body_and_tag` adds the tag).
/// `Symbol::short` panics unless the name is a short symbol, which
/// `requires` rules out.
#[verifier::external_body]
#[allow(deprecated)]
pub(crate) fn symbol_payload(name: &str) -> (r: u64)
    requires
        is_short_symbol(name@),
    ensures
        r == short_symbol_payload(name@),
{
    soroban_sdk::Symbol::short(name).to_val().get_payload()
}

#[verifier::external_type_specification]
#[verifier::external_body]
pub struct ExDecodeError(base64::DecodeError);

#[verifier::external_type_specification]
#[verifier::external_body]
pub struct ExCsvError(csv::Error);

#[verifier::external_type_specification]
#[verifier::external_body]
pub struct ExIoError(std::io::Error);

/// A CSV writer over an in-memory buffer: the records it has been given
/// accumulate in it. (`csv::Writer<W>` cannot be declared to Verus, because
/// its parameter is bound by `std::io::Write`, so it is held here.)
#[verifier::external_body]
pub struct CsvBuffer {
    writer: csv::Writer<Vec<u8>>,
}

/// The records a CSV buffer has been given so far, oldest first, each as
/// its fields' text.
pub uninterp spec fn csv_records_written(w: CsvBuffer) -> Seq<Seq<Seq<char>>>;

/// Whether no call on a CSV buffer has failed so far, so that its writer's
/// state is that of the records written.
pub uninterp spec fn csv_sound(w: CsvBuffer) -> bool;

/// The bytes that the default CSV writer (comma delimiter, `\n` record
/// terminator, quoting where needed) produces for the given records.
pub uninterp spec fn csv_document(records: Seq<Seq<Seq<char>>>) -> Seq<u8>;

/// The text of each field of a record.
pub open spec fn record_text(record: Seq<String>) -> Seq<Seq<char>> {
    record.map_values(|f: String| f@)
}

/// Calls `csv::Writer::from_writer` on an empty `Vec<u8>`. Claimed: the new
/// writer has been given no records and nothing has failed.
#[verifier::external_body]
pub(crate) fn csv_buffer() -> (r: CsvBuffer)
    ensures
        csv_records_written(r) == Seq::<Seq<Seq<char>>>::empty(),
        csv_sound(r),
{
    CsvBuffer { writer: csv::Writer::from_writer(Vec::new()) }
}

/// Calls `csv::Writer::write_record`. Claimed: when it succeeds, the record
/// follows the records written before. The writer (not flexible, over a
/// `Vec<u8>`, which never fails to take bytes) fails only on a record whose
/// field count differs from the first record's, so on a sound buffer a
/// record as long as the first one, or the first record, is written. What
/// the buffer holds after a failure is not stated.
#[verifier::external_body]
pub(crate) fn csv_write_record(w: &mut CsvBuffer, record: &Vec<String>) -> (r: Result<(), csv::Error>)
    ensures
        csv_sound(*old(w)) && (csv_records_written(*old(w)).len() == 0 || record@.len()
            == csv_records_written(*old(w))[0].len()) ==> r is Ok,
        r is Ok ==> csv_records_written(*final(w)) == csv_records_written(*old(w)).push(record_text(record@))
            && csv_sound(*final(w)) == csv_sound(*old(w)),
{
    w.writer.write_record(record.iter())
}

/// Calls `csv::Writer::flush`. Claimed: flushing gives the writer no new
/// record, and on a sound buffer it succeeds (its bytes go to a `Vec<u8>`).
#[verifier::external_body]
pub(crate) fn csv_flush(w: &mut CsvBuffer) -> (r: Result<(), std::io::Error>)
    ensures
        csv_records_written(*final(w)) == csv_records_written(*old(w)),
        csv_sound(*old(w)) ==> r is Ok && csv_sound(*final(w)),
{
    w.writer.flush()
}

/// Calls `csv::Writer::into_inner`, keeping the `io::Error` of a failure
/// (`IntoInnerError::into_error`). Claimed: on a sound buffer it succeeds
/// (it only flushes into a `Vec<u8>`), and on success the bytes are the CSV
/// document of the records written.
#[verifier::external_body]
pub(crate) fn csv_into_bytes(w: CsvBuffer) -> (r: Result<Vec<u8>, std::io::Error>)
    ensures
        csv_sound(w) ==> r is Ok,
        r is Ok ==> r->Ok_0@ == csv_document(csv_records_written(w)),
{
    match w.writer.into_inner() {
        Ok(bytes) => Ok(bytes),
        Err(e) => Err(e.into_error()),
    }
}

/// Calls `<csv::Error as ToString>::to_string`. Nothing is claimed of the
/// message text.
#[verifier::external_body]
pub(crate) fn csv_error_message(e: &csv::Error) -> String {
    e.to_string()
}

/// Calls `<std::io::Error as ToString>::to_string`. Nothing is claimed of
/// the message text.
#[verifier::external_body]
pub(crate) fn io_error_message(e: &std::io::Error) -> String {
    e.to_string()
}

} // verus!
