//! Data migration: snapshot headers and their SHA-256 checksums, payload and
//! snapshot size guardrails, version compatibility, replay protection for
//! imports, the goals CSV, and the `enc:v1:` framing of encrypted payloads.
//!
//! # Checksum model
//!
//! A snapshot checksum binds three inputs:
//!
//! ```text
//! hex(SHA-256(version_le_bytes || format_bytes || canonical_payload_bytes))
//! ```
//!
//! so that neither the schema version nor the format label can be swapped
//! without the checksum changing. The canonical payload bytes are the JSON
//! serialisation of the payload; they are produced by the caller and handed
//! to the functions here.

use vstd::prelude::*;
use vstd::string::StringSliceAdditionalSpecFns;
use crate::codec::{
    csv_buffer, csv_document, csv_error_message, csv_flush, csv_into_bytes, csv_records_written, csv_sound,
    csv_write_record,
    io_error_message, record_text, all_ascii, ascii_chars, base64_decode, base64_encode, base64_padded_len, base64_standard_decoding, base64_standard_encoding,
    lemma_base64_encoding_shape,
    decode_error_message, sha256, sha256_digest, string_from_ascii,
};

verus! {

/// Current snapshot schema version.
pub const SCHEMA_VERSION: u32 = 1;

/// Minimum schema version accepted for import.
pub const MIN_SUPPORTED_VERSION: u32 = 1;

/// Alias used in snapshot headers.
pub const SNAPSHOT_SCHEMA_VERSION: u32 = SCHEMA_VERSION;

/// Maximum canonical payload size of a snapshot.
pub const MAX_MIGRATION_PAYLOAD_BYTES: usize = 64 * 1024;

/// Maximum number of logical records in a payload.
pub const MAX_MIGRATION_RECORDS: usize = 1024;

/// Maximum serialised snapshot size accepted by JSON and binary imports.
pub const MAX_MIGRATION_SNAPSHOT_BYTES: usize = MAX_MIGRATION_PAYLOAD_BYTES + 32 * 1024;

/// Length of the `enc:v1:` marker of encrypted payloads.
pub const ENCRYPTED_PAYLOAD_PREFIX_LEN: usize = 7;

/// Maximum size of a prefixed Base64 encrypted payload: the marker plus the
/// padded Base64 encoding of a maximal payload.
pub const MAX_ENCRYPTED_PAYLOAD_BYTES: usize =
    ENCRYPTED_PAYLOAD_PREFIX_LEN + (MAX_MIGRATION_PAYLOAD_BYTES + 2) / 3 * 4;

/// Algorithm used to compute the snapshot checksum.
#[derive(Debug, Clone, Copy, PartialEq, Eq, Structural)]
#[non_exhaustive]
pub enum ChecksumAlgorithm {
    /// SHA-256 over `version_le_bytes || format_bytes || canonical_payload`.
    Sha256,
}

/// Base migration event containing metadata about a migration operation.
#[derive(Debug, Clone, PartialEq, Eq)]
pub struct MigrationEventV1 {
    pub contract_id: String,
    pub migration_type: String,
    pub version: u32,
    pub timestamp_ms: u64,
}

/// Versioned migration event payload for indexing and history.
#[derive(Debug, Clone, PartialEq, Eq)]
pub enum MigrationEvent {
    V1(MigrationEventV1),
}

/// Export format of a snapshot.
#[derive(Debug, Clone, Copy, PartialEq, Eq, Structural)]
pub enum ExportFormat {
    Json,
    Binary,
    Csv,
    Encrypted,
}

/// Snapshot header: version, checksum, hash algorithm and format label.
#[derive(Debug, Clone)]
pub struct SnapshotHeader {
    pub version: u32,
    pub checksum: String,
    pub hash_algorithm: ChecksumAlgorithm,
    pub format: String,
    pub created_at_ms: Option<u64>,
}

/// Exportable remittance split configuration.
#[derive(Debug, Clone)]
pub struct RemittanceSplitExport {
    pub owner: String,
    pub spending_percent: u32,
    pub savings_percent: u32,
    pub bills_percent: u32,
    pub insurance_percent: u32,
}

/// Exportable savings goal.
#[derive(Debug, Clone)]
pub struct SavingsGoalExport {
    pub id: u32,
    pub owner: String,
    pub name: String,
    pub target_amount: i64,
    pub current_amount: i64,
    pub target_date: u64,
    pub locked: bool,
}

/// Exportable list of savings goals.
#[derive(Debug, Clone)]
pub struct SavingsGoalsExport {
    pub next_id: u32,
    pub goals: Vec<SavingsGoalExport>,
}

/// Rollback metadata: the last good state recorded by a migration script.
#[derive(Debug, Clone)]
pub struct RollbackMetadata {
    pub previous_version: u32,
    pub previous_checksum: String,
    pub timestamp_ms: u64,
}

/// Migration and import errors.
#[derive(Debug, Clone, PartialEq, Eq)]
pub enum MigrationError {
    IncompatibleVersion { found: u32, min: u32, max: u32 },
    ChecksumMismatch,
    UnknownHashAlgorithm,
    PayloadTooLarge { size: usize, max: usize },
    SnapshotTooLarge { size: usize, max: usize },
    TooManyRecords { count: usize, max: usize },
    InvalidFormat(String),
    ValidationFailed(String),
    DeserializeError(String),
    DuplicateImport,
}

/// ASCII decimal digits of a number, most significant first, without
/// leading zeros (`0` is the single digit `0`).
pub open spec fn decimal_bytes(n: nat) -> Seq<u8>
    decreases n,
{
    if n < 10 {
        seq![(48 + n) as u8]
    } else {
        decimal_bytes(n / 10).push((48 + n % 10) as u8)
    }
}

/// The decimal text of a number, as `Display` writes an unsigned integer.
pub open spec fn decimal(n: nat) -> Seq<char> {
    ascii_chars(decimal_bytes(n))
}

/// Decimal digits are ASCII.
proof fn lemma_decimal_ascii(n: nat)
    ensures
        all_ascii(decimal_bytes(n)),
    decreases n,
{
    if n >= 10 {
        lemma_decimal_ascii(n / 10);
    }
}

/// Appends the decimal digits of `n`.
fn push_decimal(out: &mut Vec<u8>, n: u64)
    ensures
        final(out)@ == old(out)@ + decimal_bytes(n as nat),
    decreases n,
{
    let ghost start = out@;
    if n >= 10 {
        push_decimal(out, n / 10);
    }
    let digit: u8 = 48u8 + (n % 10) as u8;
    out.push(digit);
    proof {
        if n >= 10 {
            assert(start + decimal_bytes((n / 10) as nat).push(digit) =~= start + decimal_bytes(n as nat));
        } else {
            assert(start.push(digit) =~= start + decimal_bytes(n as nat));
        }
    }
}

/// The decimal text of a number.
fn decimal_string(n: u64) -> (r: String)
    ensures
        r@ == decimal(n as nat),
{
    let mut out: Vec<u8> = Vec::new();
    push_decimal(&mut out, n);
    proof {
        lemma_decimal_ascii(n as nat);
        assert(out@ =~= decimal_bytes(n as nat));
    }
    string_from_ascii(out)
}

/// The message of a size error: `<what><size> bytes (max <max>)`.
pub open spec fn size_message(what: Seq<char>, size: usize, max: usize) -> Seq<char> {
    what + decimal(size as nat) + " bytes (max "@ + decimal(max as nat) + ")"@
}

impl MigrationError {
    /// The human-readable description of the error.
    pub fn to_string(&self) -> (r: String)
        ensures
            match *self {
                MigrationError::IncompatibleVersion { found, min, max } => r@ == "incompatible version "@
                    + decimal(found as nat) + " (supported "@ + decimal(min as nat) + "-"@ + decimal(max as nat)
                    + ")"@,
                MigrationError::ChecksumMismatch => r@
                    == "checksum mismatch: snapshot integrity could not be verified"@,
                MigrationError::UnknownHashAlgorithm => r@
                    == "unknown hash algorithm: cannot verify snapshot integrity"@,
                MigrationError::PayloadTooLarge { size, max } => r@ == size_message("payload too large: "@, size, max),
                MigrationError::SnapshotTooLarge { size, max } => r@ == size_message(
                    "snapshot too large: "@,
                    size,
                    max,
                ),
                MigrationError::TooManyRecords { count, max } => r@ == "too many records: "@ + decimal(count as nat)
                    + " (max "@ + decimal(max as nat) + ")"@,
                MigrationError::InvalidFormat(m) => r@ == "invalid format: "@ + m@,
                MigrationError::ValidationFailed(m) => r@ == "validation failed: "@ + m@,
                MigrationError::DeserializeError(m) => r@ == "deserialize error: "@ + m@,
                MigrationError::DuplicateImport => r@ == "duplicate payload import detected"@,
            },
    {
        match self {
            MigrationError::IncompatibleVersion { found, min, max } => {
                let a = decimal_string(*found as u64);
                let b = decimal_string(*min as u64);
                let c = decimal_string(*max as u64);
                String::from_str("incompatible version ").concat(a.as_str()).concat(" (supported ").concat(
                    b.as_str(),
                ).concat("-").concat(c.as_str()).concat(")")
            },
            MigrationError::ChecksumMismatch => String::from_str(
                "checksum mismatch: snapshot integrity could not be verified",
            ),
            MigrationError::UnknownHashAlgorithm => String::from_str(
                "unknown hash algorithm: cannot verify snapshot integrity",
            ),
            MigrationError::PayloadTooLarge { size, max } => {
                let a = decimal_string(*size as u64);
                let b = decimal_string(*max as u64);
                String::from_str("payload too large: ").concat(a.as_str()).concat(" bytes (max ").concat(
                    b.as_str(),
                ).concat(")")
            },
            MigrationError::SnapshotTooLarge { size, max } => {
                let a = decimal_string(*size as u64);
                let b = decimal_string(*max as u64);
                String::from_str("snapshot too large: ").concat(a.as_str()).concat(" bytes (max ").concat(
                    b.as_str(),
                ).concat(")")
            },
            MigrationError::TooManyRecords { count, max } => {
                let a = decimal_string(*count as u64);
                let b = decimal_string(*max as u64);
                String::from_str("too many records: ").concat(a.as_str()).concat(" (max ").concat(b.as_str()).concat(
                    ")",
                )
            },
            MigrationError::InvalidFormat(m) => String::from_str("invalid format: ").concat(m.as_str()),
            MigrationError::ValidationFailed(m) => String::from_str("validation failed: ").concat(m.as_str()),
            MigrationError::DeserializeError(m) => String::from_str("deserialize error: ").concat(m.as_str()),
            MigrationError::DuplicateImport => String::from_str("duplicate payload import detected"),
        }
    }
}

// ---------------------------------------------------------------------------
// Specifications
// ---------------------------------------------------------------------------

/// The label that names a format in a snapshot header.
pub open spec fn format_label_of(format: ExportFormat) -> Seq<char> {
    match format {
        ExportFormat::Json => "json"@,
        ExportFormat::Binary => "binary"@,
        ExportFormat::Csv => "csv"@,
        ExportFormat::Encrypted => "encrypted"@,
    }
}

/// Little-endian bytes of a `u32`.
pub open spec fn u32_le_bytes(v: u32) -> Seq<u8> {
    seq![
        (v % 256) as u8,
        ((v / 256) % 256) as u8,
        ((v / 65536) % 256) as u8,
        (v / 16777216) as u8,
    ]
}

/// Lower-case hex digit of a nibble.
pub open spec fn hex_digit(n: int) -> u8 {
    if n < 10 {
        (48 + n) as u8
    } else {
        (87 + n) as u8
    }
}

/// Lower-case hex encoding, two ASCII digits per byte, high nibble first.
pub open spec fn hex_lower(bytes: Seq<u8>) -> Seq<u8> {
    Seq::new(
        2 * bytes.len(),
        |i: int|
            if i % 2 == 0 {
                hex_digit((bytes[i / 2] / 16) as int)
            } else {
                hex_digit((bytes[i / 2] % 16) as int)
            },
    )
}

/// The bytes a snapshot checksum is taken over.
pub open spec fn checksum_message(version: u32, format: Seq<u8>, payload: Seq<u8>) -> Seq<u8> {
    u32_le_bytes(version) + format + payload
}

/// Checksum-message law: the hashed message is the version's four bytes,
/// least significant first, then the format bytes, then the payload.
pub proof fn lemma_checksum_message_layout(version: u32, format: Seq<u8>, payload: Seq<u8>)
    ensures
        ({
            let m = checksum_message(version, format, payload);
            &&& m.len() == 4 + format.len() + payload.len()
            &&& m[0] + 256 * m[1] + 65536 * m[2] + 16777216 * m[3] == version
            &&& m.skip(4) == format + payload
        }),
{
    let m = checksum_message(version, format, payload);
    assert(m.skip(4) =~= format + payload);
    let v = version as int;
    assert(v % 256 + 256 * ((v / 256) % 256) + 65536 * ((v / 65536) % 256) + 16777216 * (v / 16777216) == v)
        by (nonlinear_arith)
        requires
            0 <= v < 4294967296,
    ;
}

/// The checksum of a snapshot with the given version, format bytes and
/// canonical payload bytes.
pub open spec fn snapshot_checksum(version: u32, format: Seq<u8>, payload: Seq<u8>) -> Seq<char> {
    ascii_chars(hex_lower(sha256_digest(checksum_message(version, format, payload))))
}

/// The checksum that a header's version and format bind to a payload.
pub open spec fn header_checksum(header: SnapshotHeader, payload: Seq<u8>) -> Seq<char> {
    snapshot_checksum(header.version, vstd::utf8::encode_utf8(header.format@), payload)
}

/// Whether a schema version can be imported.
pub open spec fn version_supported(version: u32) -> bool {
    MIN_SUPPORTED_VERSION <= version && version <= SCHEMA_VERSION
}

/// The outcome of the payload guardrails.
pub open spec fn payload_bounds_result(record_count: usize, payload_len: usize) -> Result<(), MigrationError> {
    if record_count > MAX_MIGRATION_RECORDS {
        Err(MigrationError::TooManyRecords { count: record_count, max: MAX_MIGRATION_RECORDS })
    } else if payload_len > MAX_MIGRATION_PAYLOAD_BYTES {
        Err(MigrationError::PayloadTooLarge { size: payload_len, max: MAX_MIGRATION_PAYLOAD_BYTES })
    } else {
        Ok(())
    }
}

/// The outcome of validating a snapshot for import.
pub open spec fn import_validation(
    header: SnapshotHeader,
    record_count: usize,
    payload: Seq<u8>,
) -> Result<(), MigrationError> {
    if !version_supported(header.version) {
        Err(
            MigrationError::IncompatibleVersion {
                found: header.version,
                min: MIN_SUPPORTED_VERSION,
                max: SCHEMA_VERSION,
            },
        )
    } else if payload_bounds_result(record_count, payload.len() as usize) is Err {
        payload_bounds_result(record_count, payload.len() as usize)
    } else if header.checksum@ != header_checksum(header, payload) {
        Err(MigrationError::ChecksumMismatch)
    } else {
        Ok(())
    }
}

/// The `enc:v1:` marker, as bytes.
pub open spec fn encrypted_prefix() -> Seq<u8> {
    seq![101u8, 110u8, 99u8, 58u8, 118u8, 49u8, 58u8]
}

/// The framed text of an encrypted payload: the marker followed by the
/// standard Base64 encoding of the payload.
pub open spec fn encrypted_frame(plain: Seq<u8>) -> Seq<u8> {
    encrypted_prefix() + base64_standard_encoding(plain)
}

/// Whether a byte string starts with the `enc:v1:` marker.
pub open spec fn has_encrypted_prefix(bytes: Seq<u8>) -> bool {
    bytes.len() >= ENCRYPTED_PAYLOAD_PREFIX_LEN && bytes.take(
        ENCRYPTED_PAYLOAD_PREFIX_LEN as int,
    ) == encrypted_prefix()
}

// ---------------------------------------------------------------------------
// Small helpers
// ---------------------------------------------------------------------------

/// Appends a byte slice to a vector.
fn append_bytes(out: &mut Vec<u8>, src: &[u8])
    ensures
        final(out)@ == old(out)@ + src@,
{
    let n = src.len();
    let ghost start = out@;
    let mut i: usize = 0;
    while i < n
        invariant
            n == src@.len(),
            i <= n,
            out@ == start + src@.take(i as int),
        decreases n - i,
    {
        out.push(src[i]);
        assert(src@.take(i as int).push(src@[i as int]) =~= src@.take(i + 1));
        i = i + 1;
    }
    assert(src@.take(n as int) =~= src@);
}

/// Lower-case hex digit of a nibble.
fn hex_digit_byte(n: u8) -> (r: u8)
    requires
        n < 16,
    ensures
        r == hex_digit(n as int),
        r < 128,
{
    if n < 10 {
        48 + n
    } else {
        87 + n
    }
}

/// Lower-case hex encoding of a byte string.
pub fn encode(bytes: &[u8]) -> (r: String)
    requires
        2 * bytes@.len() <= usize::MAX,
    ensures
        r@ == ascii_chars(hex_lower(bytes@)),
{
    let n = bytes.len();
    let mut out: Vec<u8> = Vec::new();
    let mut i: usize = 0;
    while i < n
        invariant
            n == bytes@.len(),
            i <= n,
            out@.len() == 2 * i,
            forall|j: int| 0 <= j < 2 * i ==> #[trigger] out@[j] == hex_lower(bytes@)[j],
        decreases n - i,
    {
        let b = bytes[i];
        out.push(hex_digit_byte(b / 16));
        out.push(hex_digit_byte(b % 16));
        proof {
            assert(hex_lower(bytes@)[2 * i as int] == hex_digit((bytes@[i as int] / 16) as int));
            assert(hex_lower(bytes@)[2 * i + 1] == hex_digit((bytes@[i as int] % 16) as int));
        }
        i = i + 1;
    }
    assert(out@ =~= hex_lower(bytes@));
    assert forall|j: int| 0 <= j < out@.len() implies #[trigger] out@[j] < 128 by {
        let k = j / 2;
        assert(0 <= k < n);
    }
    string_from_ascii(out)
}

/// The label that names a format in a snapshot header.
pub fn format_label(format: ExportFormat) -> (r: String)
    ensures
        r@ == format_label_of(format),
{
    match format {
        ExportFormat::Json => String::from_str("json"),
        ExportFormat::Binary => String::from_str("binary"),
        ExportFormat::Csv => String::from_str("csv"),
        ExportFormat::Encrypted => String::from_str("encrypted"),
    }
}

/// Checksum over a version, a format label and canonical payload bytes.
pub fn checksum_for_parts(version: u32, format: &str, payload_bytes: &[u8]) -> (r: String)
    ensures
        r@ == snapshot_checksum(version, format.spec_bytes(), payload_bytes@),
        r@ == ascii_chars(hex_lower(sha256_digest(u32_le_bytes(version) + format.spec_bytes() + payload_bytes@))),
        r@.len() == 64,
{
    let mut msg: Vec<u8> = Vec::new();
    msg.push((version % 256) as u8);
    msg.push(((version / 256) % 256) as u8);
    msg.push(((version / 65536) % 256) as u8);
    msg.push((version / 16777216) as u8);
    assert(msg@ =~= u32_le_bytes(version));
    append_bytes(&mut msg, format.as_bytes());
    append_bytes(&mut msg, payload_bytes);
    assert(msg@ =~= checksum_message(version, format.spec_bytes(), payload_bytes@));
    let digest = sha256(msg.as_slice());
    encode(digest.as_slice())
}

/// Accepts a payload whose record count and size are within the guardrails.
pub fn validate_payload_bounds(record_count: usize, payload_len: usize) -> (r: Result<(), MigrationError>)
    ensures
        r == payload_bounds_result(record_count, payload_len),
{
    if record_count > MAX_MIGRATION_RECORDS {
        return Err(MigrationError::TooManyRecords { count: record_count, max: MAX_MIGRATION_RECORDS });
    }
    if payload_len > MAX_MIGRATION_PAYLOAD_BYTES {
        return Err(MigrationError::PayloadTooLarge { size: payload_len, max: MAX_MIGRATION_PAYLOAD_BYTES });
    }
    Ok(())
}

/// Accepts a serialised snapshot of at most `MAX_MIGRATION_SNAPSHOT_BYTES`.
pub fn validate_snapshot_size(snapshot_len: usize) -> (r: Result<(), MigrationError>)
    ensures
        snapshot_len <= MAX_MIGRATION_SNAPSHOT_BYTES ==> r is Ok,
        snapshot_len > MAX_MIGRATION_SNAPSHOT_BYTES ==> r == Err::<(), MigrationError>(
            MigrationError::SnapshotTooLarge { size: snapshot_len, max: MAX_MIGRATION_SNAPSHOT_BYTES },
        ),
{
    if snapshot_len > MAX_MIGRATION_SNAPSHOT_BYTES {
        return Err(MigrationError::SnapshotTooLarge { size: snapshot_len, max: MAX_MIGRATION_SNAPSHOT_BYTES });
    }
    Ok(())
}

/// Accepts an encrypted payload text of at most `MAX_ENCRYPTED_PAYLOAD_BYTES`.
pub fn validate_encrypted_payload_size(encoded_len: usize) -> (r: Result<(), MigrationError>)
    ensures
        encoded_len <= MAX_ENCRYPTED_PAYLOAD_BYTES ==> r is Ok,
        encoded_len > MAX_ENCRYPTED_PAYLOAD_BYTES ==> r == Err::<(), MigrationError>(
            MigrationError::PayloadTooLarge { size: encoded_len, max: MAX_ENCRYPTED_PAYLOAD_BYTES },
        ),
{
    if encoded_len > MAX_ENCRYPTED_PAYLOAD_BYTES {
        return Err(MigrationError::PayloadTooLarge { size: encoded_len, max: MAX_ENCRYPTED_PAYLOAD_BYTES });
    }
    Ok(())
}

/// Version compatibility check for migration scripts.
pub fn check_version_compatibility(version: u32) -> (r: Result<(), MigrationError>)
    ensures
        version_supported(version) ==> r is Ok,
        !version_supported(version) ==> r == Err::<(), MigrationError>(
            MigrationError::IncompatibleVersion {
                found: version,
                min: MIN_SUPPORTED_VERSION,
                max: SCHEMA_VERSION,
            },
        ),
{
    if version >= MIN_SUPPORTED_VERSION && version <= SCHEMA_VERSION {
        Ok(())
    } else {
        Err(MigrationError::IncompatibleVersion { found: version, min: MIN_SUPPORTED_VERSION, max: SCHEMA_VERSION })
    }
}

impl SnapshotHeader {
    /// A fresh header for a payload: current schema version, SHA-256, the
    /// format's label, no creation time, and the checksum of the payload.
    pub fn new(format: ExportFormat, payload_bytes: &[u8]) -> (r: SnapshotHeader)
        ensures
            r.version == SCHEMA_VERSION,
            r.hash_algorithm == ChecksumAlgorithm::Sha256,
            r.format@ == format_label_of(format),
            r.created_at_ms is None,
            r.checksum@ == header_checksum(r, payload_bytes@),
            r.checksum@.len() == 64,
    {
        let label = format_label(format);
        let checksum = checksum_for_parts(SCHEMA_VERSION, label.as_str(), payload_bytes);
        SnapshotHeader {
            version: SCHEMA_VERSION,
            checksum,
            hash_algorithm: ChecksumAlgorithm::Sha256,
            format: label,
            created_at_ms: None,
        }
    }

    /// The checksum this header's version and format bind to a payload.
    pub fn compute_checksum(&self, payload_bytes: &[u8]) -> (r: String)
        ensures
            r@ == header_checksum(*self, payload_bytes@),
            r@.len() == 64,
    {
        checksum_for_parts(self.version, self.format.as_str(), payload_bytes)
    }

    /// Whether the stored checksum matches the payload.
    pub fn verify_checksum(&self, payload_bytes: &[u8]) -> (r: bool)
        ensures
            r == (self.checksum@ == header_checksum(*self, payload_bytes@)),
    {
        match self.hash_algorithm {
            ChecksumAlgorithm::Sha256 => {},
        }
        let expected = self.compute_checksum(payload_bytes);
        self.checksum == expected
    }

    /// Whether the header's schema version can be imported.
    pub fn is_version_compatible(&self) -> (r: bool)
        ensures
            r == version_supported(self.version),
    {
        self.version >= MIN_SUPPORTED_VERSION && self.version <= SCHEMA_VERSION
    }

    /// Validates a snapshot for import: version first, then the payload
    /// guardrails, then the hash algorithm, then the checksum.
    pub fn validate_for_import(&self, record_count: usize, payload_bytes: &[u8]) -> (r: Result<(), MigrationError>)
        ensures
            r == import_validation(*self, record_count, payload_bytes@),
    {
        if !self.is_version_compatible() {
            return Err(
                MigrationError::IncompatibleVersion {
                    found: self.version,
                    min: MIN_SUPPORTED_VERSION,
                    max: SCHEMA_VERSION,
                },
            );
        }
        let bounds = validate_payload_bounds(record_count, payload_bytes.len());
        if bounds.is_err() {
            return bounds;
        }
        match self.hash_algorithm {
            ChecksumAlgorithm::Sha256 => {},
        }
        if !self.verify_checksum(payload_bytes) {
            return Err(MigrationError::ChecksumMismatch);
        }
        Ok(())
    }
}

/// A header built by `SnapshotHeader::new` passes import validation for the
/// same payload, provided the payload is within the guardrails.
pub proof fn lemma_fresh_snapshot_validates(header: SnapshotHeader, record_count: usize, payload: Seq<u8>)
    requires
        header.version == SCHEMA_VERSION,
        header.checksum@ == header_checksum(header, payload),
        payload_bounds_result(record_count, payload.len() as usize) is Ok,
    ensures
        import_validation(header, record_count, payload) is Ok,
{
}


// ---------------------------------------------------------------------------
// Goal rows read from CSV
// ---------------------------------------------------------------------------

/// The outcome of taking parsed goal rows from position `i` on: rows are
/// taken in order; a row at position `MAX_MIGRATION_RECORDS` means the input
/// has too many records, and a row that failed to parse ends the import.
pub open spec fn goal_rows_from(rows: Seq<Result<SavingsGoalExport, String>>, i: nat) -> Result<
    Seq<SavingsGoalExport>,
    MigrationError,
>
    decreases rows.len() - i,
{
    if i >= rows.len() {
        Ok(Seq::empty())
    } else if i == MAX_MIGRATION_RECORDS {
        Err(MigrationError::TooManyRecords { count: (MAX_MIGRATION_RECORDS + 1) as usize, max: MAX_MIGRATION_RECORDS })
    } else {
        match rows[i as int] {
            Err(m) => Err(MigrationError::DeserializeError(m)),
            Ok(g) => match goal_rows_from(rows, i + 1) {
                Ok(rest) => Ok(seq![g] + rest),
                Err(e) => Err(e),
            },
        }
    }
}

/// Collects the goals parsed from a CSV input of `input_len` bytes, whose
/// rows (each a goal or the parser's message) are handed over in order.
///
/// `PayloadTooLarge` for an input over `MAX_MIGRATION_PAYLOAD_BYTES`;
/// otherwise `TooManyRecords` once a row follows the first
/// `MAX_MIGRATION_RECORDS`, and `DeserializeError` with the parser's message
/// for the first row that failed, whichever comes first.
pub fn collect_goal_rows(input_len: usize, rows: Vec<Result<SavingsGoalExport, String>>) -> (r: Result<
    Vec<SavingsGoalExport>,
    MigrationError,
>)
    ensures
        input_len > MAX_MIGRATION_PAYLOAD_BYTES ==> r == Err::<Vec<SavingsGoalExport>, MigrationError>(
            MigrationError::PayloadTooLarge { size: input_len, max: MAX_MIGRATION_PAYLOAD_BYTES },
        ),
        input_len <= MAX_MIGRATION_PAYLOAD_BYTES ==> match goal_rows_from(rows@, 0) {
            Ok(goals) => r is Ok && r->Ok_0@ == goals,
            Err(e) => r == Err::<Vec<SavingsGoalExport>, MigrationError>(e),
        },
{
    if input_len > MAX_MIGRATION_PAYLOAD_BYTES {
        return Err(MigrationError::PayloadTooLarge { size: input_len, max: MAX_MIGRATION_PAYLOAD_BYTES });
    }
    let ghost orig = rows@;
    let mut rest = rows;
    let mut goals: Vec<SavingsGoalExport> = Vec::new();
    let mut i: usize = 0;
    while rest.len() > 0
        invariant
            orig == rows@,
            input_len <= MAX_MIGRATION_PAYLOAD_BYTES,
            rest@ == orig.skip(i as int),
            i <= orig.len(),
            i <= MAX_MIGRATION_RECORDS,
            goal_rows_from(orig, 0) == match goal_rows_from(orig, i as nat) {
                Ok(tail) => Ok(goals@ + tail),
                Err(e) => Err::<Seq<SavingsGoalExport>, MigrationError>(e),
            },
        decreases rest.len(),
    {
        if i == MAX_MIGRATION_RECORDS {
            return Err(
                MigrationError::TooManyRecords { count: MAX_MIGRATION_RECORDS + 1, max: MAX_MIGRATION_RECORDS },
            );
        }
        let row = rest.remove(0);
        assert(row == orig[i as int]);
        assert(orig.skip(i as int).remove(0) =~= orig.skip(i + 1));
        match row {
            Err(m) => {
                return Err(MigrationError::DeserializeError(m));
            },
            Ok(g) => {
                proof {
                    match goal_rows_from(orig, (i + 1) as nat) {
                        Ok(tail) => {
                            assert(goals@ + (seq![g] + tail) =~= goals@.push(g) + tail);
                        },
                        Err(_) => {},
                    }
                }
                goals.push(g);
            },
        }
        i = i + 1;
    }
    assert(goals@ + Seq::<SavingsGoalExport>::empty() =~= goals@);
    Ok(goals)
}

// ---------------------------------------------------------------------------
// Goals as CSV
// ---------------------------------------------------------------------------

/// The text of a boolean, as `Display` writes it.
pub open spec fn bool_text(b: bool) -> Seq<char> {
    if b {
        "true"@
    } else {
        "false"@
    }
}

/// The decimal text of a signed number, as `Display` writes it.
pub open spec fn signed_decimal(n: int) -> Seq<char> {
    if n < 0 {
        "-"@ + decimal((-n) as nat)
    } else {
        decimal(n as nat)
    }
}

/// The header record of the goals CSV.
pub open spec fn goal_csv_header() -> Seq<Seq<char>> {
    seq!["id"@, "owner"@, "name"@, "target_amount"@, "current_amount"@, "target_date"@, "locked"@]
}

/// The CSV record of one goal, in header order.
pub open spec fn goal_csv_row(g: SavingsGoalExport) -> Seq<Seq<char>> {
    seq![
        decimal(g.id as nat),
        g.owner@,
        g.name@,
        signed_decimal(g.target_amount as int),
        signed_decimal(g.current_amount as int),
        decimal(g.target_date as nat),
        bool_text(g.locked),
    ]
}

/// The records of the goals CSV: the header, then one record per goal.
pub open spec fn goals_csv_table(goals: Seq<SavingsGoalExport>) -> Seq<Seq<Seq<char>>> {
    seq![goal_csv_header()] + goals.map_values(|g: SavingsGoalExport| goal_csv_row(g))
}

/// The decimal text of a signed number.
fn signed_decimal_string(n: i64) -> (r: String)
    ensures
        r@ == signed_decimal(n as int),
{
    if n < 0 {
        let magnitude: u64 = (-(n + 1)) as u64 + 1;
        let d = decimal_string(magnitude);
        String::from_str("-").concat(d.as_str())
    } else {
        decimal_string(n as u64)
    }
}

/// The text of a boolean.
fn bool_string(b: bool) -> (r: String)
    ensures
        r@ == bool_text(b),
{
    if b {
        String::from_str("true")
    } else {
        String::from_str("false")
    }
}

/// The header record of the goals CSV.
fn goal_csv_header_fields() -> (r: Vec<String>)
    ensures
        record_text(r@) == goal_csv_header(),
{
    let r = vec![
        String::from_str("id"),
        String::from_str("owner"),
        String::from_str("name"),
        String::from_str("target_amount"),
        String::from_str("current_amount"),
        String::from_str("target_date"),
        String::from_str("locked"),
    ];
    assert(record_text(r@) =~= goal_csv_header());
    r
}

/// The CSV record of one goal.
fn goal_csv_fields(g: &SavingsGoalExport) -> (r: Vec<String>)
    ensures
        record_text(r@) == goal_csv_row(*g),
{
    let r = vec![
        decimal_string(g.id as u64),
        g.owner.clone(),
        g.name.clone(),
        signed_decimal_string(g.target_amount),
        signed_decimal_string(g.current_amount),
        decimal_string(g.target_date),
        bool_string(g.locked),
    ];
    assert(record_text(r@) =~= goal_csv_row(*g));
    r
}

/// Exports a goals list as CSV: a header record, then one record per goal
/// with its id, owner, name, amounts, target date and lock flag.
///
/// `payload_json_len` is the length of the list's JSON form: the list is
/// refused when its records or that length exceed the guardrails, and the
/// CSV bytes are held to the same guardrails. Every record has the
/// header's seven fields, so the CSV writer does not fail; were it to, its
/// message would be reported as `InvalidFormat`.
pub fn export_to_csv(payload: &SavingsGoalsExport, payload_json_len: usize) -> (r: Result<Vec<u8>, MigrationError>)
    ensures
        ({
            let count = payload.goals@.len() as usize;
            let document = csv_document(goals_csv_table(payload.goals@));
            let by_json = payload_bounds_result(count, payload_json_len);
            let by_csv = payload_bounds_result(count, document.len() as usize);
            &&& by_json is Err ==> r is Err && r->Err_0 == by_json->Err_0
            &&& by_json is Ok && by_csv is Err ==> r is Err && r->Err_0 == by_csv->Err_0
            &&& by_json is Ok && by_csv is Ok ==> r is Ok && r->Ok_0@ == document
        }),
{
    let count = payload.goals.len();
    match validate_payload_bounds(count, payload_json_len) {
        Err(e) => return Err(e),
        Ok(()) => {},
    }
    let mut w = csv_buffer();
    let header = goal_csv_header_fields();
    match csv_write_record(&mut w, &header) {
        Err(e) => return Err(MigrationError::InvalidFormat(csv_error_message(&e))),
        Ok(()) => {},
    }
    assert(payload.goals@.take(0).map_values(|g: SavingsGoalExport| goal_csv_row(g)) =~= Seq::<
        Seq<Seq<char>>,
    >::empty());
    assert(goals_csv_table(payload.goals@.take(0)) =~= seq![goal_csv_header()]);
    let mut i: usize = 0;
    while i < count
        invariant
            count == payload.goals@.len(),
            payload_bounds_result(count, payload_json_len) is Ok,
            i <= count,
            csv_records_written(w) == goals_csv_table(payload.goals@.take(i as int)),
            csv_sound(w),
        decreases count - i,
    {
        let fields = goal_csv_fields(&payload.goals[i]);
        assert(csv_records_written(w)[0] == goal_csv_header());
        assert(record_text(fields@).len() == fields@.len());
        match csv_write_record(&mut w, &fields) {
            Err(e) => return Err(MigrationError::InvalidFormat(csv_error_message(&e))),
            Ok(()) => {},
        }
        assert(goals_csv_table(payload.goals@.take(i + 1)) =~= goals_csv_table(payload.goals@.take(i as int)).push(
            goal_csv_row(payload.goals@[i as int]),
        ));
        i = i + 1;
    }
    assert(payload.goals@.take(count as int) =~= payload.goals@);
    match csv_flush(&mut w) {
        Err(e) => return Err(MigrationError::InvalidFormat(io_error_message(&e))),
        Ok(()) => {},
    }
    let bytes = match csv_into_bytes(w) {
        Err(e) => return Err(MigrationError::InvalidFormat(io_error_message(&e))),
        Ok(b) => b,
    };
    match validate_payload_bounds(count, bytes.len()) {
        Err(e) => Err(e),
        Ok(()) => Ok(bytes),
    }
}


// ---------------------------------------------------------------------------
// Replay protection
// ---------------------------------------------------------------------------

/// One imported payload: its identity (checksum, version) and import time.
#[derive(Debug, Clone)]
pub struct ImportRecord {
    pub checksum: String,
    pub version: u32,
    pub timestamp_ms: u64,
}

/// Tracks imported payloads to refuse replays and duplicate restores.
#[derive(Debug, Clone)]
pub struct MigrationTracker {
    imported_payloads: Vec<ImportRecord>,
}

/// The identity of a snapshot for replay protection.
pub open spec fn header_identity(header: SnapshotHeader) -> (Seq<char>, u32) {
    (header.checksum@, header.version)
}

impl MigrationTracker {
    /// The recorded imports, oldest first, as (checksum, version, time).
    pub closed spec fn records(&self) -> Seq<(Seq<char>, u32, u64)> {
        self.imported_payloads@.map_values(|r: ImportRecord| (r.checksum@, r.version, r.timestamp_ms))
    }

    /// The identities that have been imported.
    pub open spec fn identities(&self) -> Set<(Seq<char>, u32)> {
        Set::new(
            |id: (Seq<char>, u32)|
                exists|i: int|
                    0 <= i < self.records().len() && (#[trigger] self.records()[i]).0 == id.0
                        && self.records()[i].1 == id.1,
        )
    }

    /// No identity is recorded twice.
    pub open spec fn wf(&self) -> bool {
        forall|i: int, j: int|
            0 <= i < j < self.records().len() ==> !((#[trigger] self.records()[i]).0 == (
            #[trigger] self.records()[j]).0 && self.records()[i].1 == self.records()[j].1)
    }

    /// An empty tracker.
    pub fn new() -> (r: MigrationTracker)
        ensures
            r.records() == Seq::<(Seq<char>, u32, u64)>::empty(),
            r.identities() == Set::<(Seq<char>, u32)>::empty(),
            r.wf(),
    {
        let r = MigrationTracker { imported_payloads: Vec::new() };
        assert(r.records() =~= Seq::<(Seq<char>, u32, u64)>::empty());
        assert(r.identities() =~= Set::<(Seq<char>, u32)>::empty());
        r
    }

    fn position_of(&self, checksum: &String, version: u32) -> (r: Option<usize>)
        ensures
            r matches Some(i) ==> i < self.records().len() && self.records()[i as int].0 == checksum@
                && self.records()[i as int].1 == version,
            r is None ==> !self.identities().contains((checksum@, version)),
    {
        let n = self.imported_payloads.len();
        let mut i: usize = 0;
        while i < n
            invariant
                n == self.imported_payloads@.len(),
                n == self.records().len(),
                i <= n,
                forall|j: int|
                    0 <= j < i ==> !((#[trigger] self.records()[j]).0 == checksum@ && self.records()[j].1
                        == version),
            decreases n - i,
        {
            let rec = &self.imported_payloads[i];
            if rec.version == version && rec.checksum == *checksum {
                return Some(i);
            }
            i = i + 1;
        }
        None
    }

    /// Whether a snapshot with this header has already been imported.
    pub fn is_imported(&self, header: &SnapshotHeader) -> (r: bool)
        ensures
            r == self.identities().contains(header_identity(*header)),
    {
        match self.position_of(&header.checksum, header.version) {
            Some(_) => true,
            None => false,
        }
    }

    /// Records a snapshot as imported, refusing one whose identity was
    /// imported before.
    pub fn mark_imported(&mut self, header: &SnapshotHeader, timestamp_ms: u64) -> (r: Result<(), MigrationError>)
        requires
            old(self).wf(),
        ensures
            final(self).wf(),
            old(self).identities().contains(header_identity(*header)) ==> r == Err::<(), MigrationError>(
                MigrationError::DuplicateImport,
            ) && final(self).records() == old(self).records(),
            !old(self).identities().contains(header_identity(*header)) ==> r is Ok && final(self).records()
                == old(self).records().push((header.checksum@, header.version, timestamp_ms)),
            final(self).identities() == old(self).identities().insert(header_identity(*header)),
    {
        if self.position_of(&header.checksum, header.version).is_some() {
            assert(self.identities().insert(header_identity(*header)) =~= self.identities());
            return Err(MigrationError::DuplicateImport);
        }
        let ghost before = self.records();
        let rec = ImportRecord { checksum: header.checksum.clone(), version: header.version, timestamp_ms };
        self.imported_payloads.push(rec);
        assert(self.records() =~= before.push((header.checksum@, header.version, timestamp_ms)));
        assert(self.identities() =~= old(self).identities().insert(header_identity(*header))) by {
            assert forall|id: (Seq<char>, u32)| #[trigger] self.identities().contains(id) implies old(self).identities().insert(header_identity(*header)).contains(id) by {
                let i = choose|i: int|
                    0 <= i < self.records().len() && (#[trigger] self.records()[i]).0 == id.0
                        && self.records()[i].1 == id.1;
                if i < before.len() {
                    assert(before[i] == self.records()[i]);
                }
            }
            assert forall|id: (Seq<char>, u32)| #[trigger] old(self).identities().insert(
                header_identity(*header),
            ).contains(id) implies self.identities().contains(id) by {
                if id == header_identity(*header) {
                    assert(self.records()[before.len() as int].0 == id.0);
                } else {
                    let i = choose|i: int|
                        0 <= i < before.len() && (#[trigger] before[i]).0 == id.0 && before[i].1 == id.1;
                    assert(self.records()[i] == before[i]);
                }
            }
        }
        Ok(())
    }
}


/// Accepts a parsed snapshot for import: validates the header against the
/// payload (version, then guardrails, then checksum) and, when that passes,
/// records the snapshot as imported, refusing a replay. A refused import
/// leaves the tracker as it was, so a snapshot is imported at most once and
/// only after it validated.
pub fn accept_import(
    header: &SnapshotHeader,
    record_count: usize,
    payload_bytes: &[u8],
    tracker: &mut MigrationTracker,
    timestamp_ms: u64,
) -> (r: Result<(), MigrationError>)
    requires
        old(tracker).wf(),
    ensures
        final(tracker).wf(),
        import_validation(*header, record_count, payload_bytes@) is Err ==> r == import_validation(
            *header,
            record_count,
            payload_bytes@,
        ) && final(tracker).records() == old(tracker).records(),
        import_validation(*header, record_count, payload_bytes@) is Ok && old(tracker).identities().contains(
            header_identity(*header),
        ) ==> r == Err::<(), MigrationError>(MigrationError::DuplicateImport) && final(tracker).records() == old(
            tracker,
        ).records(),
        import_validation(*header, record_count, payload_bytes@) is Ok && !old(tracker).identities().contains(
            header_identity(*header),
        ) ==> r is Ok && final(tracker).records() == old(tracker).records().push(
            (header.checksum@, header.version, timestamp_ms),
        ),
{
    let checked = header.validate_for_import(record_count, payload_bytes);
    if checked.is_err() {
        return checked;
    }
    tracker.mark_imported(header, timestamp_ms)
}


// ---------------------------------------------------------------------------
// Encrypted payload framing
// ---------------------------------------------------------------------------

/// The `enc:v1:` marker as a byte vector.
fn encrypted_prefix_bytes() -> (r: Vec<u8>)
    ensures
        r@ == encrypted_prefix(),
{
    let r = vec![101u8, 110u8, 99u8, 58u8, 118u8, 49u8, 58u8];
    assert(r@ =~= encrypted_prefix());
    r
}

/// Frames a payload as `enc:v1:<base64>`, refusing payloads larger than
/// `MAX_MIGRATION_PAYLOAD_BYTES`.
pub fn export_to_encrypted_payload(plain_bytes: &[u8]) -> (r: Result<String, MigrationError>)
    ensures
        plain_bytes@.len() > MAX_MIGRATION_PAYLOAD_BYTES ==> r == Err::<String, MigrationError>(
            MigrationError::PayloadTooLarge {
                size: plain_bytes@.len() as usize,
                max: MAX_MIGRATION_PAYLOAD_BYTES,
            },
        ),
        plain_bytes@.len() <= MAX_MIGRATION_PAYLOAD_BYTES ==> r is Ok && r->Ok_0@ == ascii_chars(
            encrypted_frame(plain_bytes@),
        ) && vstd::utf8::encode_utf8(r->Ok_0@) == encrypted_frame(plain_bytes@)
            && encrypted_frame(plain_bytes@).len() <= MAX_ENCRYPTED_PAYLOAD_BYTES
            && encrypted_frame(plain_bytes@).len() == ENCRYPTED_PAYLOAD_PREFIX_LEN + base64_padded_len(
            plain_bytes@.len() as int,
        ) && (plain_bytes@.len() > 0 ==> encrypted_frame(plain_bytes@).len() > ENCRYPTED_PAYLOAD_PREFIX_LEN),
{
    let n = plain_bytes.len();
    if n > MAX_MIGRATION_PAYLOAD_BYTES {
        return Err(MigrationError::PayloadTooLarge { size: n, max: MAX_MIGRATION_PAYLOAD_BYTES });
    }
    proof {
        assert((n + 2) / 3 <= (MAX_MIGRATION_PAYLOAD_BYTES + 2) / 3) by (nonlinear_arith)
            requires
                n <= MAX_MIGRATION_PAYLOAD_BYTES,
        ;
    }
    let b64 = base64_encode(plain_bytes);
    proof {
        lemma_base64_encoding_shape(plain_bytes@);
    }
    let mut framed = encrypted_prefix_bytes();
    append_bytes(&mut framed, b64.as_slice());
    assert(framed@ =~= encrypted_frame(plain_bytes@));
    let checked = validate_encrypted_payload_size(framed.len());
    if checked.is_err() {
        return Err(MigrationError::PayloadTooLarge { size: framed.len(), max: MAX_ENCRYPTED_PAYLOAD_BYTES });
    }
    let ghost frame = framed@;
    let out = string_from_ascii(framed);
    proof {
        assert(vstd::utf8::is_ascii_chars(out@));
        vstd::utf8::is_ascii_chars_encode_utf8(out@);
        assert(vstd::utf8::encode_utf8(out@) =~= frame);
    }
    Ok(out)
}

/// The outcome of decoding an `enc:v1:<base64>` text given as UTF-8 bytes;
/// the text of an `InvalidFormat` message is left open here.
pub open spec fn encrypted_import(bytes: Seq<u8>) -> Result<Seq<u8>, MigrationError> {
    if bytes.len() > MAX_ENCRYPTED_PAYLOAD_BYTES {
        Err(MigrationError::PayloadTooLarge { size: bytes.len() as usize, max: MAX_ENCRYPTED_PAYLOAD_BYTES })
    } else if !has_encrypted_prefix(bytes) {
        Err(MigrationError::InvalidFormat(arbitrary()))
    } else if bytes.len() == ENCRYPTED_PAYLOAD_PREFIX_LEN {
        Err(MigrationError::InvalidFormat(arbitrary()))
    } else {
        match base64_standard_decoding(bytes.skip(ENCRYPTED_PAYLOAD_PREFIX_LEN as int)) {
            None => Err(MigrationError::InvalidFormat(arbitrary())),
            Some(decoded) => if decoded.len() > MAX_MIGRATION_PAYLOAD_BYTES {
                Err(
                    MigrationError::PayloadTooLarge {
                        size: decoded.len() as usize,
                        max: MAX_MIGRATION_PAYLOAD_BYTES,
                    },
                )
            } else {
                Ok(decoded)
            },
        }
    }
}

/// Decodes an `enc:v1:<base64>` text back to payload bytes.
///
/// Rejects texts longer than `MAX_ENCRYPTED_PAYLOAD_BYTES` before looking at
/// them, then texts without the marker or without ciphertext, then texts
/// whose Base64 does not decode, then decoded payloads larger than
/// `MAX_MIGRATION_PAYLOAD_BYTES`. A text framed by
/// `export_to_encrypted_payload` decodes to the bytes it was made from.
pub fn import_from_encrypted_payload(encoded: &str) -> (r: Result<Vec<u8>, MigrationError>)
    ensures
        match encrypted_import(encoded.spec_bytes()) {
            Ok(decoded) => r is Ok && r->Ok_0@ == decoded,
            Err(MigrationError::InvalidFormat(_)) => r matches Err(MigrationError::InvalidFormat(m))
                && (!has_encrypted_prefix(encoded.spec_bytes()) ==> m@ == "missing or invalid encrypted payload marker"@)
                && (has_encrypted_prefix(encoded.spec_bytes()) && encoded.spec_bytes().len() == ENCRYPTED_PAYLOAD_PREFIX_LEN
                    ==> m@ == "empty encrypted payload ciphertext"@),
            Err(e) => r == Err::<Vec<u8>, MigrationError>(e),
        },
        ENCRYPTED_PAYLOAD_PREFIX_LEN < encoded.spec_bytes().len() <= MAX_ENCRYPTED_PAYLOAD_BYTES ==> forall|
            plain: Seq<u8>,
        |
            plain.len() <= MAX_MIGRATION_PAYLOAD_BYTES && #[trigger] encrypted_frame(plain)
                == encoded.spec_bytes() ==> r is Ok && r->Ok_0@ == plain,
{
    let bytes = encoded.as_bytes();
    let n = bytes.len();
    if n > MAX_ENCRYPTED_PAYLOAD_BYTES {
        return Err(MigrationError::PayloadTooLarge { size: n, max: MAX_ENCRYPTED_PAYLOAD_BYTES });
    }
    let prefix = encrypted_prefix_bytes();
    let mut matches = n >= ENCRYPTED_PAYLOAD_PREFIX_LEN;
    let mut i: usize = 0;
    while matches && i < ENCRYPTED_PAYLOAD_PREFIX_LEN
        invariant
            n == bytes@.len(),
            prefix@ == encrypted_prefix(),
            i <= ENCRYPTED_PAYLOAD_PREFIX_LEN,
            matches ==> n >= ENCRYPTED_PAYLOAD_PREFIX_LEN,
            matches ==> forall|j: int| 0 <= j < i ==> bytes@[j] == prefix@[j],
            !matches ==> !has_encrypted_prefix(bytes@),
        decreases ENCRYPTED_PAYLOAD_PREFIX_LEN - i,
    {
        if bytes[i] != prefix[i] {
            matches = false;
        }
        i = i + 1;
    }
    if matches {
        assert(bytes@.take(ENCRYPTED_PAYLOAD_PREFIX_LEN as int) =~= encrypted_prefix());
    }
    if !matches {
        proof {
            assert forall|plain: Seq<u8>| #[trigger] encrypted_frame(plain) == bytes@ implies false by {
                assert(encrypted_frame(plain).take(ENCRYPTED_PAYLOAD_PREFIX_LEN as int) =~= encrypted_prefix());
            }
        }
        return Err(MigrationError::InvalidFormat(String::from_str("missing or invalid encrypted payload marker")));
    }
    if n == ENCRYPTED_PAYLOAD_PREFIX_LEN {
        return Err(MigrationError::InvalidFormat(String::from_str("empty encrypted payload ciphertext")));
    }
    let mut rest: Vec<u8> = Vec::new();
    let mut k: usize = ENCRYPTED_PAYLOAD_PREFIX_LEN;
    while k < n
        invariant
            n == bytes@.len(),
            ENCRYPTED_PAYLOAD_PREFIX_LEN <= k <= n,
            rest@ == bytes@.subrange(ENCRYPTED_PAYLOAD_PREFIX_LEN as int, k as int),
        decreases n - k,
    {
        rest.push(bytes[k]);
        assert(bytes@.subrange(ENCRYPTED_PAYLOAD_PREFIX_LEN as int, k as int).push(bytes@[k as int])
            =~= bytes@.subrange(ENCRYPTED_PAYLOAD_PREFIX_LEN as int, k + 1));
        k = k + 1;
    }
    assert(rest@ =~= bytes@.skip(ENCRYPTED_PAYLOAD_PREFIX_LEN as int));
    proof {
        assert forall|plain: Seq<u8>| #[trigger] encrypted_frame(plain) == bytes@ implies base64_standard_encoding(
            plain,
        ) == rest@ by {
            assert(encrypted_frame(plain).skip(ENCRYPTED_PAYLOAD_PREFIX_LEN as int) =~= base64_standard_encoding(
                plain,
            ));
        }
    }
    match base64_decode(rest.as_slice()) {
        Err(e) => Err(MigrationError::InvalidFormat(decode_error_message(&e))),
        Ok(decoded) => {
            if decoded.len() > MAX_MIGRATION_PAYLOAD_BYTES {
                Err(MigrationError::PayloadTooLarge { size: decoded.len(), max: MAX_MIGRATION_PAYLOAD_BYTES })
            } else {
                Ok(decoded)
            }
        },
    }
}

} // verus!
