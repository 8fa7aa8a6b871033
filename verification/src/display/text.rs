//! Fixed-size text fields: names and numbers as null-padded bytes.

use core::fmt::Write;
use vstd::prelude::*;
use vstd::slice::slice_subrange;
use vstd::string::StringSliceAdditionalSpecFns;
use vstd::utf8::valid_utf8;

verus! {

/// Size of a text field in bytes. The last byte is always 0, so a field
/// holds up to 15 bytes of text.
pub const FIELD_LEN: usize = 16;

/// Capacity of the buffer that a value is written into.
pub const VALUE_TEXT_CAPACITY: usize = 8;

/// The field that holds `text`: its first 15 bytes at most, then zeros.
pub open spec fn field_of(text: Seq<u8>) -> Seq<u8> {
    Seq::new(
        FIELD_LEN as nat,
        |i: int|
            if i < text.len() && i < FIELD_LEN - 1 {
                text[i]
            } else {
                0u8
            },
    )
}

/// Where the text of a field ends: at its first zero byte, or at the end of
/// the bytes if there is none.
pub open spec fn text_end(bytes: Seq<u8>) -> int
    decreases bytes.len(),
{
    if bytes.len() == 0 || bytes[0] == 0 {
        0
    } else {
        1 + text_end(bytes.drop_first())
    }
}

/// The text of a field ends within the field, before any zero byte.
pub proof fn lemma_text_end(bytes: Seq<u8>)
    ensures
        0 <= text_end(bytes) <= bytes.len(),
        forall|i: int| 0 <= i < text_end(bytes) ==> bytes[i] != 0,
        text_end(bytes) < bytes.len() ==> bytes[text_end(bytes)] == 0,
    decreases bytes.len(),
{
    if bytes.len() != 0 && bytes[0] != 0 {
        lemma_text_end(bytes.drop_first());
        assert forall|i: int| 0 <= i < text_end(bytes) implies bytes[i] != 0 by {
            if i > 0 {
                assert(bytes[i] == bytes.drop_first()[i - 1]);
            }
        }
    }
}

/// The text that a field spells: its bytes up to [`text_end`] if they are
/// valid UTF-8, and nothing otherwise.
pub open spec fn text_of(bytes: Seq<u8>) -> Seq<u8> {
    let text = bytes.take(text_end(bytes));
    if valid_utf8(text) {
        text
    } else {
        Seq::empty()
    }
}

/// The error of `core::str::from_utf8`, carried through unread.
#[verifier::external_type_specification]
#[verifier::external_body]
pub struct ExUtf8Error(core::str::Utf8Error);

/// `core::str::from_utf8` succeeds exactly on valid UTF-8, and the string
/// slice it returns consists of the bytes it was given.
pub assume_specification<'a>[ core::str::from_utf8 ](v: &'a [u8]) -> (res: Result<
    &'a str,
    core::str::Utf8Error,
>)
    ensures
        res is Ok <==> valid_utf8(v@),
        res matches Ok(s) ==> s.spec_bytes() == v@,
;

/// What `write!(buffer, "{}", v)` leaves in an empty `heapless::String` of
/// capacity [`VALUE_TEXT_CAPACITY`], as bytes.
pub uninterp spec fn written_value(v: i32) -> Seq<u8>;

/// Writes `v` with `{}` into a `heapless::String` of capacity
/// [`VALUE_TEXT_CAPACITY`] and returns what the string holds, as a field.
///
/// The string rejects any piece that does not fit and keeps what it held, so
/// the field's text is never longer than the capacity.
#[verifier::external_body]
fn write_value(v: i32) -> (field: [u8; FIELD_LEN])
    ensures
        field@ == field_of(written_value(v)),
{
    let mut buffer: heapless::String<VALUE_TEXT_CAPACITY> = heapless::String::new();
    let _ = write!(buffer, "{}", v);
    let mut field = [0u8; FIELD_LEN];
    field[..buffer.len()].copy_from_slice(buffer.as_bytes());
    field
}

/// The text field that shows the value `v`.
pub fn value_field(v: i32) -> (field: [u8; FIELD_LEN])
    ensures
        field@ == field_of(written_value(v)),
{
    write_value(v)
}

/// Copies `text` into a field, cut to 15 bytes and padded with zeros.
pub fn field_from_str(text: &str) -> (field: [u8; FIELD_LEN])
    ensures
        field@ == field_of(text.spec_bytes()),
{
    let bytes = text.as_bytes();
    let mut field = [0u8, 0, 0, 0, 0, 0, 0, 0, 0, 0, 0, 0, 0, 0, 0, 0];
    let mut i: usize = 0;
    while i < bytes.len() && i < FIELD_LEN - 1
        invariant
            i <= FIELD_LEN - 1,
            i <= bytes@.len(),
            bytes@ == text.spec_bytes(),
            forall|k: int| 0 <= k < i ==> #[trigger] field[k] == bytes@[k],
            forall|k: int| i <= k < FIELD_LEN ==> #[trigger] field[k] == 0u8,
        decreases FIELD_LEN - i,
    {
        field[i] = bytes[i];
        i += 1;
    }
    field
}

/// Where the text of `bytes` ends.
pub fn find_text_end(bytes: &[u8]) -> (end: usize)
    ensures
        end == text_end(bytes@),
        end <= bytes@.len(),
{
    let mut end: usize = 0;
    assert(bytes@.skip(0) =~= bytes@);
    while end < bytes.len() && bytes[end] != 0
        invariant
            end <= bytes@.len(),
            text_end(bytes@) == end + text_end(bytes@.skip(end as int)),
        decreases bytes@.len() - end,
    {
        proof {
            let rest = bytes@.skip(end as int);
            assert(rest.drop_first() =~= bytes@.skip(end + 1));
        }
        end += 1;
    }
    end
}

/// Reads a null-padded field back as a string slice.
///
/// Stops at the first zero byte. Returns `""` if the first byte is zero or
/// the bytes before the first zero are not valid UTF-8.
pub fn bytes_to_str(bytes: &[u8]) -> (text: &str)
    ensures
        text.spec_bytes() == text_of(bytes@),
        text.spec_bytes().len() <= bytes@.len(),
{
    let end = find_text_end(bytes);
    let head = slice_subrange(bytes, 0, end);
    match core::str::from_utf8(head) {
        Ok(text) => text,
        Err(_) => {
            proof {
                reveal_strlit("");
            }
            ""
        },
    }
}

} // verus!
