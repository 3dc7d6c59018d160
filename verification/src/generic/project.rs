//! Data that a plugin keeps in the project file: the checks on keys and
//! values, and the framing by which serialized data is stored as a header
//! and chunks of at most 4096 bytes, plain or compressed.

use vstd::prelude::*;
use std::io::Read;
use vstd::string::StringSliceAdditionalSpecFns;
use crate::text::{decimal, digit_char, push_decimal, push_str, has_prefix, starts_with, text_after};

verus! {

/// The largest binary value the project file stores under one key.
pub const MAX_BINARY_PARAM_LEN: usize = 4096;

/// An error of storing or reading project data.
#[derive(Debug, Clone, PartialEq, Eq)]
pub enum ProjectFileError {
    /// The key holds a NUL byte, at the given byte position.
    KeyContainsNull(usize),
    /// The host had no data for the key.
    RetrievalFailed(String),
    /// Binary data is longer than 4096 bytes; its length.
    DataTooLarge(usize),
    /// The value holds a NUL byte, at the given byte position.
    ValueContainsNull(usize),
}

impl ProjectFileError {
    /// The message that explains the error.
    pub fn message(&self) -> (r: String)
        ensures
            r@ == match self {
                ProjectFileError::KeyContainsNull(p) => "key contains null byte: "@
                    + "nul byte found in provided data at position: "@ + decimal(*p as nat),
                ProjectFileError::RetrievalFailed(k) => "data retrieval failed for key "@ + k@,
                ProjectFileError::DataTooLarge(n) => "data length exceeds 4096 bytes, got "@
                    + decimal(*n as nat) + " bytes"@,
                ProjectFileError::ValueContainsNull(p) => "value contains null byte: "@
                    + "nul byte found in provided data at position: "@ + decimal(*p as nat),
            },
    {
        let mut s = String::new();
        match self {
            ProjectFileError::KeyContainsNull(p) => {
                push_str(&mut s, "key contains null byte: ");
                push_str(&mut s, "nul byte found in provided data at position: ");
                push_decimal(&mut s, *p as u64);
            },
            ProjectFileError::RetrievalFailed(k) => {
                push_str(&mut s, "data retrieval failed for key ");
                push_str(&mut s, k.as_str());
            },
            ProjectFileError::DataTooLarge(n) => {
                push_str(&mut s, "data length exceeds 4096 bytes, got ");
                push_decimal(&mut s, *n as u64);
                push_str(&mut s, " bytes");
            },
            ProjectFileError::ValueContainsNull(p) => {
                push_str(&mut s, "value contains null byte: ");
                push_str(&mut s, "nul byte found in provided data at position: ");
                push_decimal(&mut s, *p as u64);
            },
        }
        s
    }
}

/// `pos` is the byte position of the first NUL byte of `s`.
pub open spec fn is_first_nul(s: Seq<u8>, pos: int) -> bool {
    &&& 0 <= pos < s.len()
    &&& s[pos] == 0u8
    &&& forall|j: int| 0 <= j < pos ==> s[j] != 0u8
}

/// The byte position of the first NUL byte of a text, if any.
pub fn nul_position(text: &str) -> (r: Option<usize>)
    ensures
        match r {
            Some(p) => is_first_nul(text.spec_bytes(), p as int),
            None => forall|j: int| 0 <= j < text.spec_bytes().len() ==> text.spec_bytes()[j] != 0u8,
        },
{
    let bytes = text.as_bytes();
    let n = bytes.len();
    let mut i: usize = 0;
    while i < n
        invariant
            n == bytes@.len(),
            bytes@ == text.spec_bytes(),
            i <= n,
            forall|j: int| 0 <= j < i ==> bytes@[j] != 0u8,
        decreases n - i,
    {
        if bytes[i] == 0 {
            return Some(i);
        }
        i = i + 1;
    }
    None
}

/// Checks a key and a string value for the project file: a NUL in the key is
/// reported first, then a NUL in the value.
pub fn check_string_param(key: &str, value: &str) -> (r: Result<(), ProjectFileError>)
    ensures
        r is Ok <==> (forall|j: int|
            0 <= j < key.spec_bytes().len() ==> key.spec_bytes()[j] != 0u8) && (forall|j: int|
            0 <= j < value.spec_bytes().len() ==> value.spec_bytes()[j] != 0u8),
        r matches Err(ProjectFileError::KeyContainsNull(p)) ==> is_first_nul(
            key.spec_bytes(),
            p as int,
        ),
        r matches Err(ProjectFileError::ValueContainsNull(p)) ==> is_first_nul(
            value.spec_bytes(),
            p as int,
        ) && (forall|j: int| 0 <= j < key.spec_bytes().len() ==> key.spec_bytes()[j] != 0u8),
        r matches Err(e) ==> (e is KeyContainsNull || e is ValueContainsNull),
{
    match nul_position(key) {
        Some(p) => return Err(ProjectFileError::KeyContainsNull(p)),
        None => {},
    }
    match nul_position(value) {
        Some(p) => Err(ProjectFileError::ValueContainsNull(p)),
        None => Ok(()),
    }
}

/// Checks a key and binary data for the project file: data longer than 4096
/// bytes is reported first, then a NUL in the key.
pub fn check_binary_param(key: &str, data_len: usize) -> (r: Result<(), ProjectFileError>)
    ensures
        r is Ok <==> data_len <= MAX_BINARY_PARAM_LEN && (forall|j: int|
            0 <= j < key.spec_bytes().len() ==> key.spec_bytes()[j] != 0u8),
        r matches Err(ProjectFileError::DataTooLarge(n)) ==> n == data_len && data_len
            > MAX_BINARY_PARAM_LEN,
        r matches Err(ProjectFileError::KeyContainsNull(p)) ==> data_len <= MAX_BINARY_PARAM_LEN
            && is_first_nul(key.spec_bytes(), p as int),
        r matches Err(e) ==> (e is DataTooLarge || e is KeyContainsNull),
{
    if data_len > MAX_BINARY_PARAM_LEN {
        return Err(ProjectFileError::DataTooLarge(data_len));
    }
    match nul_position(key) {
        Some(p) => Err(ProjectFileError::KeyContainsNull(p)),
        None => Ok(()),
    }
}

/// The prefix of the header of plain serialized data.
pub open spec fn rmp_header_prefix() -> Seq<char> {
    "--aviutl2-rs:serde-rmp-v1:"@
}

/// The prefix of the header of compressed serialized data.
pub open spec fn zstd_header_prefix() -> Seq<char> {
    "--aviutl2-rs:serde-zstd-v1:"@
}

/// The header stored under a key for plain serialized data of `n` bytes.
pub open spec fn rmp_header_text(n: nat) -> Seq<char> {
    rmp_header_prefix() + decimal(n)
}

/// The key under which the `index`-th chunk of plain serialized data of
/// `key` is stored.
pub open spec fn chunk_key_text(key: Seq<char>, index: nat) -> Seq<char> {
    "--aviutl2-rs:serde-chunk:"@ + key + seq![':'] + decimal(index)
}

/// The key under which the `index`-th chunk of compressed serialized data of
/// `key` is stored.
pub open spec fn zstd_chunk_key_text(key: Seq<char>, index: nat) -> Seq<char> {
    "--aviutl2-rs:serde-zstd-v1:chunk:"@ + key + seq![':'] + decimal(index)
}

/// The header stored for plain serialized data of `num_bytes` bytes.
pub fn rmp_header(num_bytes: usize) -> (r: String)
    ensures
        r@ == rmp_header_text(num_bytes as nat),
{
    let mut s = String::new();
    push_str(&mut s, "--aviutl2-rs:serde-rmp-v1:");
    push_decimal(&mut s, num_bytes as u64);
    s
}

/// The key of the `index`-th chunk of plain serialized data of `key`.
pub fn chunk_key(key: &str, index: usize) -> (r: String)
    ensures
        r@ == chunk_key_text(key@, index as nat),
{
    let mut s = String::new();
    push_str(&mut s, "--aviutl2-rs:serde-chunk:");
    push_str(&mut s, key);
    push_str(&mut s, ":");
    push_decimal(&mut s, index as u64);
    proof {
        reveal_strlit(":");
    }
    s
}

/// The key of the `index`-th chunk of compressed serialized data of `key`.
pub fn zstd_chunk_key(key: &str, index: usize) -> (r: String)
    ensures
        r@ == zstd_chunk_key_text(key@, index as nat),
{
    let mut s = String::new();
    push_str(&mut s, "--aviutl2-rs:serde-zstd-v1:chunk:");
    push_str(&mut s, key);
    push_str(&mut s, ":");
    push_decimal(&mut s, index as u64);
    proof {
        reveal_strlit(":");
    }
    s
}

/// The encoding errors of `rmp-serde`, which the library only carries.
#[verifier::external_type_specification]
#[verifier::external_body]
pub struct ExRmpEncodeError(rmp_serde::encode::Error);

/// The decoding errors of `rmp-serde`, which the library only carries.
#[verifier::external_type_specification]
#[verifier::external_body]
pub struct ExRmpDecodeError(rmp_serde::decode::Error);

/// The I/O errors of the standard library, which the library only carries.
#[verifier::external_type_specification]
#[verifier::external_body]
pub struct ExIoError(std::io::Error);

/// An error of storing or reading serialized data in the project file.
#[derive(Debug)]
pub enum ProjectFileSerdeError {
    /// The value could not be serialized.
    Serialization(rmp_serde::encode::Error),
    /// The stored bytes could not be deserialized.
    Deserialization(rmp_serde::decode::Error),
    /// The stored bytes could not be decompressed.
    Decompression(std::io::Error),
    /// Storing or reading a key failed.
    ProjectFile(ProjectFileError),
    /// The header names no format that is understood.
    UnsupportedFormat,
    /// The header has a known prefix but no valid length; the header.
    InvalidHeaderFormat(String),
    /// Fewer bytes were found than the header announces.
    IncompleteData,
}

impl From<rmp_serde::encode::Error> for ProjectFileSerdeError {
    fn from(e: rmp_serde::encode::Error) -> (r: Self) {
        ProjectFileSerdeError::Serialization(e)
    }
}

impl vstd::std_specs::convert::FromSpecImpl<rmp_serde::encode::Error> for ProjectFileSerdeError {
    open spec fn obeys_from_spec() -> bool {
        true
    }

    open spec fn from_spec(v: rmp_serde::encode::Error) -> Self {
        ProjectFileSerdeError::Serialization(v)
    }
}

impl From<rmp_serde::decode::Error> for ProjectFileSerdeError {
    fn from(e: rmp_serde::decode::Error) -> (r: Self) {
        ProjectFileSerdeError::Deserialization(e)
    }
}

impl vstd::std_specs::convert::FromSpecImpl<rmp_serde::decode::Error> for ProjectFileSerdeError {
    open spec fn obeys_from_spec() -> bool {
        true
    }

    open spec fn from_spec(v: rmp_serde::decode::Error) -> Self {
        ProjectFileSerdeError::Deserialization(v)
    }
}

impl From<std::io::Error> for ProjectFileSerdeError {
    fn from(e: std::io::Error) -> (r: Self) {
        ProjectFileSerdeError::Decompression(e)
    }
}

impl vstd::std_specs::convert::FromSpecImpl<std::io::Error> for ProjectFileSerdeError {
    open spec fn obeys_from_spec() -> bool {
        true
    }

    open spec fn from_spec(v: std::io::Error) -> Self {
        ProjectFileSerdeError::Decompression(v)
    }
}

impl From<ProjectFileError> for ProjectFileSerdeError {
    fn from(e: ProjectFileError) -> (r: Self) {
        ProjectFileSerdeError::ProjectFile(e)
    }
}

impl vstd::std_specs::convert::FromSpecImpl<ProjectFileError> for ProjectFileSerdeError {
    open spec fn obeys_from_spec() -> bool {
        true
    }

    open spec fn from_spec(v: ProjectFileError) -> Self {
        ProjectFileSerdeError::ProjectFile(v)
    }
}

/// Whether a character is an ASCII decimal digit.
pub open spec fn is_digit(c: char) -> bool {
    '0' <= c && c <= '9'
}

/// The number that a sequence of decimal digits spells.
pub open spec fn digits_value(s: Seq<char>) -> nat
    decreases s.len(),
{
    if s.len() == 0 {
        0
    } else {
        digits_value(s.drop_last()) * 10 + ((s.last() as int) - ('0' as int)) as nat
    }
}

/// The digits of a number's text: the text without a leading `+`.
pub open spec fn number_body(s: Seq<char>) -> Seq<char> {
    if s.len() > 0 && s[0] == '+' {
        s.drop_first()
    } else {
        s
    }
}

/// The text of a number that Rust reads as a `usize`: an optional `+`, then
/// one or more decimal digits, of a value that fits.
pub open spec fn parsed_usize(s: Seq<char>) -> Option<nat> {
    let body = number_body(s);
    if body.len() > 0 && (forall|i: int| 0 <= i < body.len() ==> is_digit(#[trigger] body[i]))
        && digits_value(body) <= usize::MAX {
        Some(digits_value(body))
    } else {
        None
    }
}

proof fn lemma_digits_value_grows(s: Seq<char>, k: int)
    requires
        0 <= k <= s.len(),
        forall|i: int| 0 <= i < s.len() ==> is_digit(#[trigger] s[i]),
    ensures
        digits_value(s.take(k)) <= digits_value(s),
    decreases s.len(),
{
    if k < s.len() {
        assert(s.drop_last().take(k) =~= s.take(k));
        lemma_digits_value_grows(s.drop_last(), k);
    } else {
        assert(s.take(k) =~= s);
    }
}

proof fn lemma_parsed_usize_rejects(s: Seq<char>, body: Seq<char>, k: int)
    requires
        body == number_body(s),
        0 <= k < body.len(),
        !is_digit(body[k]),
    ensures
        parsed_usize(s) is None,
{
}

proof fn lemma_parsed_usize_too_large(s: Seq<char>, body: Seq<char>)
    requires
        body == number_body(s),
        (forall|j: int| 0 <= j < body.len() ==> is_digit(#[trigger] body[j])) ==> digits_value(
            body,
        ) > usize::MAX,
    ensures
        parsed_usize(s) is None,
{
}

/// Reads a number as Rust reads a `usize`: an optional `+`, then decimal
/// digits whose value fits.
pub fn parse_usize(s: &str) -> (r: Option<usize>)
    ensures
        r is Some <==> parsed_usize(s@) is Some,
        r matches Some(v) ==> parsed_usize(s@) == Some(v as nat),
{
    let n = s.unicode_len();
    let start: usize = if n > 0 && s.get_char(0) == '+' {
        1
    } else {
        0
    };
    let ghost body = number_body(s@);
    assert(body =~= s@.subrange(start as int, n as int));
    if start >= n {
        return None;
    }
    let mut value: usize = 0;
    let mut i: usize = start;
    while i < n
        invariant
            n == s@.len(),
            start <= i <= n,
            body == number_body(s@),
            body == s@.subrange(start as int, n as int),
            forall|j: int| 0 <= j < i - start ==> is_digit(#[trigger] body[j]),
            value == digits_value(body.take(i - start)),
        decreases n - i,
    {
        let c = s.get_char(i);
        let ghost k = i - start;
        proof {
            assert(body[k] == c);
            assert(body.take(k + 1).drop_last() =~= body.take(k));
        }
        if !('0' <= c && c <= '9') {
            proof {
                lemma_parsed_usize_rejects(s@, body, k);
            }
            return None;
        }
        let d = (c as u32 - '0' as u32) as usize;
        if value > (usize::MAX - d) / 10 {
            proof {
                assert(digits_value(body.take(k + 1)) > usize::MAX) by (nonlinear_arith)
                    requires
                        value > (usize::MAX - d) / 10,
                        digits_value(body.take(k + 1)) == value * 10 + d,
                        d <= 9,
                ;
                if forall|j: int| 0 <= j < body.len() ==> is_digit(#[trigger] body[j]) {
                    lemma_digits_value_grows(body, k + 1);
                    assert(digits_value(body) > usize::MAX);
                }
                lemma_parsed_usize_too_large(s@, body);
            }
            return None;
        }
        proof {
            assert(value * 10 + d <= usize::MAX) by (nonlinear_arith)
                requires
                    value <= (usize::MAX - d) / 10,
                    d <= 9,
            ;
        }
        value = value * 10 + d;
        i = i + 1;
    }
    assert(body.take(n - start) =~= body);
    Some(value)
}

/// What reading a header with a given prefix gives: the announced length, or
/// why there is none.
pub open spec fn header_length_result(header: Seq<char>, prefix: Seq<char>) -> Option<
    Option<nat>,
> {
    if !starts_with(header, prefix) {
        None
    } else {
        match parsed_usize(header.subrange(prefix.len() as int, header.len() as int)) {
            Some(n) => if n > 0 {
                Some(Some(n))
            } else {
                Some(None)
            },
            None => Some(None),
        }
    }
}

proof fn lemma_decimal_digits(n: nat)
    ensures
        decimal(n).len() > 0,
        forall|i: int| 0 <= i < decimal(n).len() ==> is_digit(#[trigger] decimal(n)[i]),
        digits_value(decimal(n)) == n,
    decreases n,
{
    if n < 10 {
        let s = decimal(n);
        assert(s.drop_last() =~= Seq::<char>::empty());
        assert(digit_char(n as int) as int - '0' as int == n);
        assert(digits_value(s) == digits_value(s.drop_last()) * 10
            + (s.last() as int - '0' as int) as nat);
    } else {
        lemma_decimal_digits(n / 10);
        let s = decimal(n);
        assert(s.drop_last() =~= decimal(n / 10));
        let d = (n % 10) as int;
        assert(digit_char(d) as int - '0' as int == d);
        assert(is_digit(digit_char(d)));
        assert(s.last() == digit_char(d));
        assert(digits_value(s) == digits_value(decimal(n / 10)) * 10 + d);
        assert((n / 10) * 10 + d == n);
        assert forall|i: int| 0 <= i < s.len() implies is_digit(#[trigger] s[i]) by {
            if i < s.len() - 1 {
                assert(s[i] == decimal(n / 10)[i]);
            }
        }
    }
}

/// A header written for a length reads back as that length: for every
/// length from 1 to `usize::MAX`, the text of the plain header and the text
/// of the compressed header each announce it.
pub proof fn lemma_header_read_back(n: nat)
    requires
        0 < n <= usize::MAX,
    ensures
        header_length_result(rmp_header_text(n), rmp_header_prefix()) == Some(Some(n)),
        header_length_result(zstd_header_prefix() + decimal(n), zstd_header_prefix()) == Some(
            Some(n),
        ),
{
    lemma_decimal_digits(n);
    let d = decimal(n);
    assert(d[0] != '+') by {
        assert(is_digit(d[0]));
    }
    assert(number_body(d) == d);
    assert(parsed_usize(d) == Some(n));
    let h1 = rmp_header_prefix() + d;
    assert(h1.subrange(0, rmp_header_prefix().len() as int) =~= rmp_header_prefix());
    assert(h1.subrange(rmp_header_prefix().len() as int, h1.len() as int) =~= d);
    let h2 = zstd_header_prefix() + d;
    assert(h2.subrange(0, zstd_header_prefix().len() as int) =~= zstd_header_prefix());
    assert(h2.subrange(zstd_header_prefix().len() as int, h2.len() as int) =~= d);
}

fn header_length(header: &str, prefix: &str) -> (r: Result<usize, ProjectFileSerdeError>)
    ensures
        header_length_result(header@, prefix@) matches Some(Some(n)) ==> r matches Ok(m) && m
            == n,
        header_length_result(header@, prefix@) is None ==> r matches Err(
            ProjectFileSerdeError::UnsupportedFormat,
        ),
        header_length_result(header@, prefix@) matches Some(None) ==> r matches Err(
            ProjectFileSerdeError::InvalidHeaderFormat(h),
        ) && h@ == header@,
{
    if !has_prefix(header, prefix) {
        return Err(ProjectFileSerdeError::UnsupportedFormat);
    }
    let rest = text_after(header, prefix.unicode_len());
    match parse_usize(rest.as_str()) {
        Some(n) => {
            if n == 0 {
                Err(ProjectFileSerdeError::InvalidHeaderFormat(header.to_owned()))
            } else {
                Ok(n)
            }
        },
        None => Err(ProjectFileSerdeError::InvalidHeaderFormat(header.to_owned())),
    }
}

/// The length that the header of plain serialized data announces: the header
/// must be `--aviutl2-rs:serde-rmp-v1:` followed by a positive number.
pub fn rmp_header_length(header: &str) -> (r: Result<usize, ProjectFileSerdeError>)
    ensures
        header_length_result(header@, rmp_header_prefix()) matches Some(Some(n)) ==> r matches Ok(
            m,
        ) && m == n,
        header_length_result(header@, rmp_header_prefix()) is None ==> r matches Err(
            ProjectFileSerdeError::UnsupportedFormat,
        ),
        header_length_result(header@, rmp_header_prefix()) matches Some(None) ==> r matches Err(
            ProjectFileSerdeError::InvalidHeaderFormat(h),
        ) && h@ == header@,
{
    header_length(header, "--aviutl2-rs:serde-rmp-v1:")
}

/// The length that the header of compressed serialized data announces: the
/// header must be `--aviutl2-rs:serde-zstd-v1:` followed by a positive number.
pub fn zstd_header_length(header: &str) -> (r: Result<usize, ProjectFileSerdeError>)
    ensures
        header_length_result(header@, zstd_header_prefix()) matches Some(Some(n)) ==> r matches Ok(
            m,
        ) && m == n,
        header_length_result(header@, zstd_header_prefix()) is None ==> r matches Err(
            ProjectFileSerdeError::UnsupportedFormat,
        ),
        header_length_result(header@, zstd_header_prefix()) matches Some(None) ==> r matches Err(
            ProjectFileSerdeError::InvalidHeaderFormat(h),
        ) && h@ == header@,
{
    header_length(header, "--aviutl2-rs:serde-zstd-v1:")
}

/// The number of chunks that data of `n` bytes is stored in.
pub open spec fn chunk_count(n: nat) -> nat {
    n / 4096 + (if n % 4096 == 0 {
        0nat
    } else {
        1nat
    })
}

/// The `i`-th chunk of data: the bytes from `4096 * i` to the next 4096
/// bytes or the end.
pub open spec fn chunk_of(data: Seq<u8>, i: nat) -> Seq<u8> {
    let start: int = 4096 * (i as int);
    let end: int = if 4096 * (i + 1) < data.len() {
        4096 * (i as int + 1)
    } else {
        data.len() as int
    };
    data.subrange(start, end)
}

/// The length that a reader asks for when `read` of `n` bytes have been
/// read: the next 4096 bytes or the rest.
pub open spec fn request_len(n: nat, read: nat) -> nat {
    if 4096 < n - read {
        4096
    } else {
        (n - read) as nat
    }
}

/// The first `k` chunks of data, one after another.
pub open spec fn chunks_joined(data: Seq<u8>, k: nat) -> Seq<u8>
    decreases k,
{
    if k == 0 {
        Seq::empty()
    } else {
        chunks_joined(data, (k - 1) as nat) + chunk_of(data, (k - 1) as nat)
    }
}

proof fn lemma_chunks_joined(data: Seq<u8>, k: nat)
    requires
        k <= chunk_count(data.len()),
    ensures
        chunks_joined(data, k) == data.take(if 4096 * k < data.len() {
            4096 * k as int
        } else {
            data.len() as int
        }),
    decreases k,
{
    if k == 0 {
        assert(data.take(0) =~= Seq::<u8>::empty());
    } else {
        lemma_chunks_joined(data, (k - 1) as nat);
        let i = (k - 1) as nat;
        assert(4096 * i < data.len()) by (nonlinear_arith)
            requires
                i < data.len() / 4096 + (if data.len() % 4096 == 0 {
                    0nat
                } else {
                    1nat
                }),
        ;
        let end: int = if 4096 * (i + 1) < data.len() {
            4096 * (i as int + 1)
        } else {
            data.len() as int
        };
        assert(data.take(4096 * i as int) + data.subrange(4096 * i as int, end) =~= data.take(end));
    }
}

/// Splits data into the chunks it is stored in: 4096 bytes each, the last
/// one maybe shorter.
pub fn split_into_param_chunks(data: &[u8]) -> (r: Vec<Vec<u8>>)
    ensures
        r@.len() == chunk_count(data@.len()),
        forall|i: int| 0 <= i < r@.len() ==> #[trigger] r@[i]@ == chunk_of(data@, i as nat),
        buffer_views(r@) == param_chunks(data@),
{
    let n = data.len();
    let mut out: Vec<Vec<u8>> = Vec::new();
    let mut start: usize = 0;
    while start < n
        invariant
            n == data@.len(),
            start <= n,
            start < n ==> start == 4096 * out@.len(),
            start == n ==> out@.len() == chunk_count(n as nat),
            forall|i: int| 0 <= i < out@.len() ==> #[trigger] out@[i]@ == chunk_of(data@, i as nat),
        decreases n - start,
    {
        let end: usize = if n - start > 4096 {
            start + 4096
        } else {
            n
        };
        let mut chunk: Vec<u8> = Vec::new();
        let mut j: usize = start;
        while j < end
            invariant
                start <= j <= end,
                end <= n,
                n == data@.len(),
                chunk@ == data@.subrange(start as int, j as int),
            decreases end - j,
        {
            chunk.push(data[j]);
            j = j + 1;
            assert(chunk@ =~= data@.subrange(start as int, j as int));
        }
        let ghost k = out@.len();
        out.push(chunk);
        proof {
            assert(start == 4096 * k);
            assert(out@[k as int]@ == chunk_of(data@, k as nat));
        }
        start = end;
        proof {
            if start == n {
                assert(out@.len() == chunk_count(n as nat)) by (nonlinear_arith)
                    requires
                        out@.len() == k + 1,
                        4096 * k < n,
                        n <= 4096 * (k + 1),
                ;
            }
        }
    }
    assert(buffer_views(out@) =~= param_chunks(data@));
    out
}

/// The first `k` stored chunks, one after another.
pub open spec fn stored_joined(stored: Seq<Seq<u8>>, k: nat) -> Seq<u8>
    decreases k,
{
    if k == 0 {
        Seq::empty()
    } else {
        stored_joined(stored, (k - 1) as nat) + stored[k - 1]
    }
}

/// The bytes read after `i` chunks of data of `n` bytes.
pub open spec fn read_after(n: nat, i: nat) -> nat {
    if 4096 * i < n {
        4096 * i
    } else {
        n
    }
}

/// Whether the chunks stored for data of `n` bytes are all there, each with
/// the length that a reader asks for.
pub open spec fn stored_complete(stored: Seq<Seq<u8>>, n: nat) -> bool {
    &&& chunk_count(n) <= stored.len()
    &&& forall|i: int|
        0 <= i < chunk_count(n) ==> #[trigger] stored[i].len() == request_len(
            n,
            read_after(n, i as nat),
        )
}

/// A reader of chunked data: it asks for the chunks in order, each with the
/// length still to read up to 4096 bytes, and gathers them; it stops at the
/// first chunk that cannot be read.
pub struct ChunkCollector {
    num_bytes: usize,
    read_bytes: usize,
    bytes: Vec<u8>,
    index: usize,
    stopped: bool,
}

impl ChunkCollector {
    /// The bytes gathered are as many as were read, and every chunk read was
    /// as long as asked for.
    pub closed spec fn wf(&self) -> bool {
        &&& self.bytes@.len() == self.read_bytes
        &&& self.read_bytes == read_after(self.num_bytes as nat, self.index as nat)
    }

    /// The number of bytes expected.
    pub closed spec fn expected(&self) -> nat {
        self.num_bytes as nat
    }

    /// The bytes gathered so far.
    pub closed spec fn collected(&self) -> Seq<u8> {
        self.bytes@
    }

    /// The index of the next chunk.
    pub closed spec fn next_index(&self) -> nat {
        self.index as nat
    }

    /// Whether a chunk could not be read.
    pub closed spec fn is_stopped(&self) -> bool {
        self.stopped
    }

    /// A reader of data of `num_bytes` bytes.
    pub fn new(num_bytes: usize) -> (r: Self)
        ensures
            r.wf(),
            r.expected() == num_bytes,
            r.collected() == Seq::<u8>::empty(),
            r.next_index() == 0,
            !r.is_stopped(),
    {
        ChunkCollector { num_bytes, read_bytes: 0, bytes: Vec::new(), index: 0, stopped: false }
    }

    /// The index and the length of the next chunk to read, if reading goes on.
    pub fn next_request(&self) -> (r: Option<(usize, usize)>)
        requires
            self.wf(),
        ensures
            r is Some <==> !self.is_stopped() && self.collected().len() < self.expected(),
            r matches Some(q) ==> q.0 == self.next_index() && q.1 == request_len(
                self.expected(),
                self.collected().len(),
            ),
    {
        if self.stopped || self.read_bytes >= self.num_bytes {
            return None;
        }
        let rest = self.num_bytes - self.read_bytes;
        let len: usize = if 4096 < rest {
            4096
        } else {
            rest
        };
        Some((self.index, len))
    }

    /// Gathers the chunk that was asked for.
    pub fn accept(&mut self, chunk: &[u8])
        requires
            old(self).wf(),
            !old(self).is_stopped(),
            old(self).collected().len() < old(self).expected(),
            chunk@.len() == request_len(old(self).expected(), old(self).collected().len()),
        ensures
            final(self).wf(),
            final(self).collected() == old(self).collected() + chunk@,
            final(self).next_index() == old(self).next_index() + 1,
            final(self).expected() == old(self).expected(),
            !final(self).is_stopped(),
    {
        let ghost before = self.bytes@;
        let n = chunk.len();
        let mut j: usize = 0;
        let mut bytes = Vec::new();
        std::mem::swap(&mut bytes, &mut self.bytes);
        while j < n
            invariant
                n == chunk@.len(),
                j <= n,
                bytes@ == before + chunk@.take(j as int),
            decreases n - j,
        {
            bytes.push(chunk[j]);
            j = j + 1;
            assert(bytes@ =~= before + chunk@.take(j as int));
        }
        assert(chunk@.take(n as int) =~= chunk@);
        proof {
            let num = self.num_bytes as nat;
            let i = self.index as nat;
            assert(read_after(num, i + 1) == self.read_bytes + n) by (nonlinear_arith)
                requires
                    self.read_bytes == read_after(num, i),
                    self.read_bytes < num,
                    n == request_len(num, self.read_bytes as nat),
            ;
        }
        self.bytes = bytes;
        self.read_bytes = self.read_bytes + n;
        self.index = self.index + 1;
    }

    /// Records that the chunk asked for could not be read.
    pub fn stop(&mut self)
        requires
            old(self).wf(),
        ensures
            final(self).wf(),
            final(self).is_stopped(),
            final(self).collected() == old(self).collected(),
            final(self).expected() == old(self).expected(),
    {
        self.stopped = true;
    }

    /// The gathered data, or [`ProjectFileSerdeError::IncompleteData`] when
    /// fewer bytes were read than expected.
    pub fn finish(self) -> (r: Result<Vec<u8>, ProjectFileSerdeError>)
        requires
            self.wf(),
        ensures
            r is Ok <==> self.collected().len() == self.expected(),
            r matches Ok(v) ==> v@ == self.collected(),
            r matches Err(e) ==> e is IncompleteData,
    {
        if self.read_bytes != self.num_bytes {
            Err(ProjectFileSerdeError::IncompleteData)
        } else {
            Ok(self.bytes)
        }
    }
}

/// The bytes of each of a list of buffers.
pub open spec fn buffer_views(stored: Seq<Vec<u8>>) -> Seq<Seq<u8>> {
    stored.map_values(|v: Vec<u8>| v@)
}

/// The chunks that data is stored in.
pub open spec fn param_chunks(data: Seq<u8>) -> Seq<Seq<u8>> {
    Seq::new(chunk_count(data.len()), |i: int| chunk_of(data, i as nat))
}

impl ChunkCollector {
    /// The bytes gathered are those of the chunks read so far.
    pub proof fn lemma_read_so_far(&self)
        requires
            self.wf(),
        ensures
            self.collected().len() == read_after(self.expected(), self.next_index()),
    {
    }
}

proof fn lemma_complete_at(stored: Seq<Seq<u8>>, n: nat, i: int)
    requires
        stored_complete(stored, n),
        0 <= i < chunk_count(n),
    ensures
        i < stored.len() && stored[i].len() == request_len(n, read_after(n, i as nat)),
{
    assert(i < stored.len());
    assert(stored[i].len() == request_len(n, read_after(n, i as nat)));
}

proof fn lemma_count_from_reads(n: nat, k: nat)
    requires
        read_after(n, k) == n,
        k == 0 || 4096 * (k - 1) < n,
    ensures
        k == chunk_count(n),
{
    if k == 0 {
        assert(n == 0);
    } else {
        assert(k == chunk_count(n)) by (nonlinear_arith)
            requires
                4096 * (k - 1) < n,
                n <= 4096 * k,
                k > 0,
        ;
    }
}

/// Reads data of `num_bytes` bytes from stored chunks, as the host would
/// give them: a chunk can be read when it is stored with exactly the length
/// asked for. Gives the data when every chunk could be read, else
/// [`ProjectFileSerdeError::IncompleteData`].
pub fn collect_stored_chunks(stored: &[Vec<u8>], num_bytes: usize) -> (r: Result<
    Vec<u8>,
    ProjectFileSerdeError,
>)
    ensures
        r is Ok <==> stored_complete(buffer_views(stored@), num_bytes as nat),
        r matches Ok(v) ==> v@ == stored_joined(
            buffer_views(stored@),
            chunk_count(num_bytes as nat),
        ),
        r matches Err(e) ==> e is IncompleteData,
{
    let ghost views = buffer_views(stored@);
    let mut c = ChunkCollector::new(num_bytes);
    loop
        invariant
            views == buffer_views(stored@),
            c.wf(),
            c.expected() == num_bytes,
            c.collected() == stored_joined(views, c.next_index()),
            c.next_index() == 0 || 4096 * (c.next_index() - 1) < num_bytes,
            forall|i: int|
                0 <= i < c.next_index() ==> i < views.len() && #[trigger] views[i].len()
                    == request_len(num_bytes as nat, read_after(num_bytes as nat, i as nat)),
            c.is_stopped() ==> c.collected().len() < num_bytes && !(c.next_index() < views.len()
                && views[c.next_index() as int].len() == request_len(
                num_bytes as nat,
                read_after(num_bytes as nat, c.next_index()),
            )),
        ensures
            c.wf(),
            c.expected() == num_bytes,
            c.collected() == stored_joined(views, c.next_index()),
            c.next_index() == 0 || 4096 * (c.next_index() - 1) < num_bytes,
            forall|i: int|
                0 <= i < c.next_index() ==> i < views.len() && #[trigger] views[i].len()
                    == request_len(num_bytes as nat, read_after(num_bytes as nat, i as nat)),
            c.is_stopped() ==> c.collected().len() < num_bytes && !(c.next_index() < views.len()
                && views[c.next_index() as int].len() == request_len(
                num_bytes as nat,
                read_after(num_bytes as nat, c.next_index()),
            )),
            !c.is_stopped() ==> c.collected().len() >= num_bytes,
        decreases num_bytes - c.collected().len(), if c.is_stopped() {
            0int
        } else {
            1int
        },
    {
        proof {
            c.lemma_read_so_far();
        }
        match c.next_request() {
            None => break,
            Some((i, len)) => {
                if i < stored.len() && stored[i].len() == len {
                    let ghost k = c.next_index();
                    c.accept(stored[i].as_slice());
                    proof {
                        c.lemma_read_so_far();
                        assert(views[k as int] == stored@[k as int]@);
                        assert(stored_joined(views, k + 1) == stored_joined(views, k)
                            + views[k as int]);
                    }
                } else {
                    proof {
                        if i < stored.len() {
                            assert(views[i as int] == stored@[i as int]@);
                        }
                    }
                    c.stop();
                }
            },
        }
    }
    proof {
        c.lemma_read_so_far();
        let n = num_bytes as nat;
        if !c.is_stopped() {
            lemma_count_from_reads(n, c.next_index());
            assert(stored_complete(views, n));
        } else {
            let k = c.next_index();
            assert(4096 * k < n);
            assert(k < chunk_count(n)) by (nonlinear_arith)
                requires
                    4096 * k < n,
            ;
            if stored_complete(views, n) {
                lemma_complete_at(views, n, k as int);
            }
            assert(!stored_complete(views, n));
        }
    }
    c.finish()
}

/// Data stored in its chunks reads back as the same data: every chunk has the
/// length a reader asks for, and the chunks together are the data.
pub proof fn lemma_param_chunks_read_back(data: Seq<u8>)
    ensures
        stored_complete(param_chunks(data), data.len()),
        stored_joined(param_chunks(data), chunk_count(data.len())) == data,
{
    let n = data.len();
    let chunks = param_chunks(data);
    assert forall|i: int| 0 <= i < chunk_count(n) implies i < chunks.len() && #[trigger] chunks[
        i
    ].len() == request_len(n, read_after(n, i as nat)) by {
        assert(4096 * i < n) by (nonlinear_arith)
            requires
                i < n / 4096 + (if n % 4096 == 0 {
                    0nat
                } else {
                    1nat
                }),
        ;
    }
    lemma_stored_joined_chunks(data, chunk_count(n));
    lemma_chunks_joined(data, chunk_count(n));
    assert(4096 * chunk_count(n) >= n) by (nonlinear_arith);
    assert(data.take(n as int) =~= data);
}

proof fn lemma_stored_joined_chunks(data: Seq<u8>, k: nat)
    requires
        k <= chunk_count(data.len()),
    ensures
        stored_joined(param_chunks(data), k) == chunks_joined(data, k),
    decreases k,
{
    if k > 0 {
        lemma_stored_joined_chunks(data, (k - 1) as nat);
    }
}

/// What the first zstd frame of `data` decodes to, or `None` when it does not
/// decode.
pub uninterp spec fn zstd_decoded(data: Seq<u8>) -> Option<Seq<u8>>;

/// Decodes the first zstd frame of `data` with the streaming decoder of
/// `ruzstd` (`StreamingDecoder::new`, then `read_to_end`).
///
/// The contract claims only that the outcome depends on the bytes alone:
/// success exactly when the frame decodes, and then the decoded bytes. What a
/// frame decodes to is the zstd format's and is left unnamed beyond that.
#[verifier::external_body]
fn zstd_decompress(data: &[u8]) -> (r: Result<Vec<u8>, std::io::Error>)
    ensures
        r is Ok <==> zstd_decoded(data@) is Some,
        r matches Ok(v) ==> zstd_decoded(data@) == Some(v@),
{
    let mut decoder = ruzstd::decoding::StreamingDecoder::new(data).map_err(std::io::Error::other)?;
    let mut out = Vec::new();
    decoder.read_to_end(&mut out)?;
    Ok(out)
}

/// Decompresses stored data that was compressed with zstd; a failure is
/// [`ProjectFileSerdeError::Decompression`].
pub fn decompress_stored(bytes: &[u8]) -> (r: Result<Vec<u8>, ProjectFileSerdeError>)
    ensures
        r is Ok <==> zstd_decoded(bytes@) is Some,
        r matches Ok(v) ==> zstd_decoded(bytes@) == Some(v@),
        r matches Err(e) ==> e is Decompression,
{
    match zstd_decompress(bytes) {
        Ok(v) => Ok(v),
        Err(e) => Err(ProjectFileSerdeError::Decompression(e)),
    }
}

} // verus!
