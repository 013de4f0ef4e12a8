//! Heuristics on the raw bytes of an uploaded document: does it look
//! encrypted, does it look damaged.

use vstd::prelude::*;
use vstd::slice::slice_subrange;
use vstd::string::*;

verus! {

/// What the bytes of a document suggest about its state.
#[derive(Debug, Clone, Copy, PartialEq, Eq)]
pub enum FileCondition {
    Normal,
    LikelyCorrupted,
    LikelyEncrypted,
}

/// Number of leading bytes that are searched for encryption markers.
pub const HEADER_LIMIT: usize = 32768;

/// Number of encryption markers that are searched for.
pub const SIGNATURE_COUNT: usize = 9;

/// Size of the end-of-central-directory record that closes a ZIP archive.
pub const ZIP_END_RECORD_SIZE: usize = 22;

/// Text of the `k`-th encryption marker.
pub open spec fn signature_text(k: int) -> Seq<char> {
    if k == 0 {
        "EncryptedPackage"@
    } else if k == 1 {
        "Microsoft_Container_"@
    } else if k == 2 {
        "DRMContent"@
    } else if k == 3 {
        "EncryptionInfo"@
    } else if k == 4 {
        "EncryptedData"@
    } else if k == 5 {
        "EncryptedDocument"@
    } else if k == 6 {
        "ECMA-376 Encryption"@
    } else if k == 7 {
        "msoffice"@
    } else {
        "encrypt"@
    }
}

/// The bytes of a text whose characters are all ASCII: one byte per character.
pub open spec fn ascii_bytes(text: Seq<char>) -> Seq<u8> {
    Seq::new(text.len(), |i: int| text[i] as u8)
}

/// The `k`-th encryption marker as single bytes.
pub open spec fn signature(k: int) -> Seq<u8> {
    ascii_bytes(signature_text(k))
}

/// UTF-16 little endian form of ASCII bytes: each byte followed by a zero.
pub open spec fn utf16_le(ascii: Seq<u8>) -> Seq<u8> {
    Seq::new(2 * ascii.len(), |i: int| if i % 2 == 0 { ascii[i / 2] } else { 0u8 })
}

/// UTF-16 big endian form of ASCII bytes: each byte preceded by a zero.
pub open spec fn utf16_be(ascii: Seq<u8>) -> Seq<u8> {
    Seq::new(2 * ascii.len(), |i: int| if i % 2 == 0 { 0u8 } else { ascii[i / 2] })
}


/// `needle` lies in `haystack` at offset `at`.
pub open spec fn occurs_at(haystack: Seq<u8>, needle: Seq<u8>, at: int) -> bool {
    &&& 0 <= at
    &&& at + needle.len() <= haystack.len()
    &&& haystack.subrange(at, at + needle.len()) == needle
}

/// `needle` lies somewhere in `haystack` as a contiguous run of bytes.
pub open spec fn contains_needle(haystack: Seq<u8>, needle: Seq<u8>) -> bool {
    exists|at: int| occurs_at(haystack, needle, at)
}

/// Compares the window of `haystack` that starts at `at` with `needle`.
fn window_matches(haystack: &[u8], needle: &[u8], at: usize) -> (same: bool)
    requires
        at + needle@.len() <= haystack@.len(),
    ensures
        same == occurs_at(haystack@, needle@, at as int),
{
    let width: usize = needle.len();
    let total: usize = haystack.len();
    let mut k: usize = 0;
    while k < width
        invariant
            k <= width == needle@.len(),
            at + width <= total == haystack@.len(),
            forall|j: int| 0 <= j < k ==> haystack@[at + j] == needle@[j],
        decreases needle@.len() - k,
    {
        if haystack[at + k] != needle[k] {
            proof {
                let window = haystack@.subrange(at as int, at + needle@.len());
                assert(window[k as int] == haystack@[at + k]);
            }
            return false;
        }
        k += 1;
    }
    assert(haystack@.subrange(at as int, at + needle@.len()) =~= needle@);
    true
}

/// Whether `needle` occurs in `haystack`.
pub fn find_needle(haystack: &[u8], needle: &[u8]) -> (found: bool)
    requires
        needle@.len() > 0,
    ensures
        found == contains_needle(haystack@, needle@),
{
    if haystack.len() < needle.len() {
        return false;
    }
    let last: usize = haystack.len() - needle.len();
    let mut at: usize = 0;
    while at <= last
        invariant
            at <= last + 1,
            needle@.len() > 0,
            last + needle@.len() == haystack@.len() <= usize::MAX,
            forall|j: int| 0 <= j < at ==> !occurs_at(haystack@, needle@, j),
        decreases last + 1 - at,
    {
        if window_matches(haystack, needle, at) {
            return true;
        }
        at += 1;
    }
    false
}


/// `header` holds the `k`-th encryption marker in one of its three forms.
pub open spec fn signature_found(header: Seq<u8>, k: int) -> bool {
    ||| contains_needle(header, signature(k))
    ||| contains_needle(header, utf16_le(signature(k)))
    ||| contains_needle(header, utf16_be(signature(k)))
}

/// `header` holds at least one encryption marker.
pub open spec fn looks_encrypted(header: Seq<u8>) -> bool {
    exists|k: int| 0 <= k < SIGNATURE_COUNT && #[trigger] signature_found(header, k)
}

/// The part of a document that is searched for encryption markers.
pub open spec fn header_of(data: Seq<u8>) -> Seq<u8> {
    if data.len() < HEADER_LIMIT {
        data
    } else {
        data.subrange(0, HEADER_LIMIT as int)
    }
}

/// The document starts like a ZIP archive.
pub open spec fn starts_as_zip(data: Seq<u8>) -> bool {
    data.len() >= 2 && data[0] == 0x50 && data[1] == 0x4b
}

/// The document is long enough for a ZIP end record and carries the record's
/// magic number where the record would start.
pub open spec fn has_zip_end_record(data: Seq<u8>) -> bool {
    &&& data.len() >= ZIP_END_RECORD_SIZE
    &&& data[data.len() - 22] == 0x50
    &&& data[data.len() - 21] == 0x4b
    &&& data[data.len() - 20] == 0x05
    &&& data[data.len() - 19] == 0x06
}

/// The condition that the bytes of a document suggest.
///
/// A document of fewer than four bytes is taken for damaged. Encryption
/// markers in the header win over everything else. A document that starts
/// like a ZIP archive is taken for damaged unless its end record is in place.
pub open spec fn file_condition(data: Seq<u8>) -> FileCondition {
    if data.len() < 4 {
        FileCondition::LikelyCorrupted
    } else if looks_encrypted(header_of(data)) {
        FileCondition::LikelyEncrypted
    } else if starts_as_zip(data) && !has_zip_end_record(data) {
        FileCondition::LikelyCorrupted
    } else {
        FileCondition::Normal
    }
}

/// The bytes of an ASCII text.
fn ascii_text_bytes(text: &'static str) -> (bytes: &'static [u8])
    requires
        text.is_ascii(),
    ensures
        bytes@ == ascii_bytes(text@),
{
    broadcast use is_ascii_spec_bytes;

    text.as_bytes()
}

/// The `k`-th encryption marker.
fn signature_bytes(k: usize) -> (sig: &'static [u8])
    requires
        k < SIGNATURE_COUNT,
    ensures
        sig@ == signature(k as int),
        sig@.len() > 0,
{
    proof {
        reveal_strlit("EncryptedPackage");
        reveal_strlit("Microsoft_Container_");
        reveal_strlit("DRMContent");
        reveal_strlit("EncryptionInfo");
        reveal_strlit("EncryptedData");
        reveal_strlit("EncryptedDocument");
        reveal_strlit("ECMA-376 Encryption");
        reveal_strlit("msoffice");
        reveal_strlit("encrypt");
    }
    if k == 0 {
        ascii_text_bytes("EncryptedPackage")
    } else if k == 1 {
        ascii_text_bytes("Microsoft_Container_")
    } else if k == 2 {
        ascii_text_bytes("DRMContent")
    } else if k == 3 {
        ascii_text_bytes("EncryptionInfo")
    } else if k == 4 {
        ascii_text_bytes("EncryptedData")
    } else if k == 5 {
        ascii_text_bytes("EncryptedDocument")
    } else if k == 6 {
        ascii_text_bytes("ECMA-376 Encryption")
    } else if k == 7 {
        ascii_text_bytes("msoffice")
    } else {
        ascii_text_bytes("encrypt")
    }
}

/// ASCII bytes as UTF-16 little endian.
pub fn to_utf16_le(ascii: &[u8]) -> (wide: Vec<u8>)
    ensures
        wide@ == utf16_le(ascii@),
{
    let mut wide: Vec<u8> = Vec::new();
    let count: usize = ascii.len();
    let mut i: usize = 0;
    while i < count
        invariant
            i <= count == ascii@.len(),
            wide@.len() == 2 * i,
            forall|j: int| 0 <= j < 2 * i ==> wide@[j] == utf16_le(ascii@)[j],
        decreases count - i,
    {
        wide.push(ascii[i]);
        wide.push(0);
        i += 1;
    }
    assert(wide@ =~= utf16_le(ascii@));
    wide
}

/// ASCII bytes as UTF-16 big endian.
pub fn to_utf16_be(ascii: &[u8]) -> (wide: Vec<u8>)
    ensures
        wide@ == utf16_be(ascii@),
{
    let mut wide: Vec<u8> = Vec::new();
    let count: usize = ascii.len();
    let mut i: usize = 0;
    while i < count
        invariant
            i <= count == ascii@.len(),
            wide@.len() == 2 * i,
            forall|j: int| 0 <= j < 2 * i ==> wide@[j] == utf16_be(ascii@)[j],
        decreases count - i,
    {
        wide.push(0);
        wide.push(ascii[i]);
        i += 1;
    }
    assert(wide@ =~= utf16_be(ascii@));
    wide
}

/// Whether `header` holds the `k`-th encryption marker in one of its forms.
fn holds_signature(header: &[u8], k: usize) -> (found: bool)
    requires
        k < SIGNATURE_COUNT,
    ensures
        found == signature_found(header@, k as int),
{
    let sig = signature_bytes(k);
    if find_needle(header, sig) {
        return true;
    }
    let wide_le = to_utf16_le(sig);
    if find_needle(header, wide_le.as_slice()) {
        return true;
    }
    let wide_be = to_utf16_be(sig);
    find_needle(header, wide_be.as_slice())
}

/// Judges a document by its bytes, for a better error message when its
/// conversion fails.
pub fn get_file_condition(data: &[u8]) -> (condition: FileCondition)
    ensures
        condition == file_condition(data@),
{
    let size: usize = data.len();
    if size < 4 {
        return FileCondition::LikelyCorrupted;
    }
    let header_len: usize = if size < HEADER_LIMIT { size } else { HEADER_LIMIT };
    let header = slice_subrange(data, 0, header_len);
    assert(header@ =~= header_of(data@));

    let mut k: usize = 0;
    while k < SIGNATURE_COUNT
        invariant
            k <= SIGNATURE_COUNT,
            header@ == header_of(data@),
            data@.len() >= 4,
            forall|j: int| 0 <= j < k ==> !signature_found(header@, j),
        decreases SIGNATURE_COUNT - k,
    {
        if holds_signature(header, k) {
            assert(signature_found(header@, k as int));
            return FileCondition::LikelyEncrypted;
        }
        k += 1;
    }

    if data[0] == 0x50 && data[1] == 0x4b {
        if size < ZIP_END_RECORD_SIZE {
            return FileCondition::LikelyCorrupted;
        }
        let end_record_start: usize = size - ZIP_END_RECORD_SIZE;
        if data[end_record_start] != 0x50 || data[end_record_start + 1] != 0x4b
            || data[end_record_start + 2] != 0x05 || data[end_record_start + 3] != 0x06 {
            return FileCondition::LikelyCorrupted;
        }
    }
    FileCondition::Normal
}

} // verus!
