//! Host strings: copies of text into zero-terminated blocks for the host, and
//! text that the host hands back as zero-terminated bytes.

use vstd::prelude::*;
use vstd::slice::slice_subrange;
use vstd::string::StringExecFns;
use vstd::utf8::{decode_utf8, encode_utf8, valid_utf8};

verus! {

/// The text that the formatter of `std::str::Utf8Error` gives for the error
/// that decoding `bytes` ends in.
pub uninterp spec fn utf8_error_debug(bytes: Seq<u8>) -> Seq<char>;

/// Decodes bytes as UTF-8 with `std::str::from_utf8`: the decoded text where
/// the bytes are valid UTF-8, and only there; otherwise the error that std
/// reports, as its debug formatter prints it.
#[verifier::external_body]
fn decode_text(bytes: &[u8]) -> (text: Result<String, String>)
    ensures
        text is Ok <==> valid_utf8(bytes@),
        text matches Ok(s) ==> s@ == decode_utf8(bytes@),
        text matches Err(e) ==> e@ == utf8_error_debug(bytes@),
{
    match std::str::from_utf8(bytes) {
        Ok(s) => Ok(s.to_string()),
        Err(e) => Err(format!("{:?}", e)),
    }
}

/// The block that holds `bytes` as a host string: the bytes, then one zero.
pub open spec fn terminated(bytes: Seq<u8>) -> Seq<u8> {
    bytes.push(0u8)
}

/// Whether `bytes` is one zero-terminated string: it ends in a zero and holds
/// no other.
pub open spec fn is_cstr(bytes: Seq<u8>) -> bool {
    &&& bytes.len() > 0
    &&& bytes.last() == 0
    &&& forall|i: int| 0 <= i < bytes.len() - 1 ==> bytes[i] != 0
}

/// The bytes of a zero-terminated string without the terminator.
pub open spec fn cstr_content(bytes: Seq<u8>) -> Seq<u8>
    recommends
        bytes.len() > 0,
{
    bytes.drop_last()
}

/// The text shown for a node whose host rendering is `decoded`: the rendering
/// itself, or a note that carries the decoding error.
pub open spec fn display_text(decoded: Result<Seq<char>, Seq<char>>) -> Seq<char> {
    match decoded {
        Ok(text) => text,
        Err(error) => "<ffi error: "@ + error + ">"@,
    }
}

/// A copy of `bytes` in a block one byte longer, the last byte zero. This is
/// what the host's zeroing allocator holds after the bytes were copied in.
pub fn copy_terminated(bytes: &[u8]) -> (block: Vec<u8>)
    ensures
        block@ == terminated(bytes@),
        block@.len() == bytes@.len() + 1,
{
    let mut block: Vec<u8> = Vec::new();
    let mut i: usize = 0;
    while i < bytes.len()
        invariant
            i <= bytes@.len(),
            block@ == bytes@.take(i as int),
        decreases bytes@.len() - i,
    {
        block.push(bytes[i]);
        i = i + 1;
        assert(block@ =~= bytes@.take(i as int));
    }
    assert(bytes@.take(i as int) =~= bytes@);
    block.push(0);
    block
}

/// Things that can be copied into host memory as a zero-terminated string.
pub trait AsPgCStr {
    /// The bytes of the text, without a terminator.
    spec fn text_bytes(&self) -> Seq<u8>;

    /// The contents of the host block for this text: its bytes as they are,
    /// followed by one zero. The host owns the block made from it.
    fn as_pg_cstr(&self) -> (block: Vec<u8>)
        ensures
            block@ == terminated(self.text_bytes()),
    ;
}

impl<'a> AsPgCStr for &'a str {
    open spec fn text_bytes(&self) -> Seq<u8> {
        encode_utf8(self@)
    }

    fn as_pg_cstr(&self) -> (block: Vec<u8>) {
        let self_bytes = self.as_bytes();
        copy_terminated(self_bytes)
    }
}

impl AsPgCStr for String {
    open spec fn text_bytes(&self) -> Seq<u8> {
        encode_utf8(self@)
    }

    fn as_pg_cstr(&self) -> (block: Vec<u8>) {
        self.as_str().as_pg_cstr()
    }
}

/// The text to show for the outcome of decoding a node's host rendering.
pub fn display_of(decoded: Result<String, String>) -> (shown: String)
    ensures
        shown@ == display_text(
            match decoded {
                Ok(s) => Ok(s@),
                Err(e) => Err(e@),
            },
        ),
{
    match decoded {
        Ok(text) => text,
        Err(error) => {
            let mut shown = String::from_str("<ffi error: ");
            shown.append(error.as_str());
            shown.append(">");
            shown
        },
    }
}

/// The text to show for a node, given the bytes of its host rendering
/// without the terminator: the decoded text where the bytes are UTF-8, else a
/// note that carries the decoding error.
pub fn node_to_string_for_display(node_to_string: &[u8]) -> (shown: String)
    ensures
        valid_utf8(node_to_string@) ==> shown@ == decode_utf8(node_to_string@),
        !valid_utf8(node_to_string@) ==> shown@ == "<ffi error: "@ + utf8_error_debug(
            node_to_string@,
        ) + ">"@,
{
    display_of(decode_text(node_to_string))
}

/// The text of a zero-terminated UTF-8 constant of the host's declarations.
pub fn cstr_text(bytes_with_nul: &[u8]) -> (text: String)
    requires
        is_cstr(bytes_with_nul@),
        valid_utf8(cstr_content(bytes_with_nul@)),
    ensures
        text@ == decode_utf8(cstr_content(bytes_with_nul@)),
{
    let content = slice_subrange(bytes_with_nul, 0, bytes_with_nul.len() - 1);
    assert(content@ =~= cstr_content(bytes_with_nul@));
    match decode_text(content) {
        Ok(text) => text,
        Err(_) => vstd::pervasive::unreached(),
    }
}

/// A text without a zero byte, copied out as a host string, reads back as
/// the same text: the block is one zero-terminated string, its content is
/// the text's bytes, and they decode to the text.
pub proof fn host_copy_reads_back(text: Seq<char>)
    requires
        forall|i: int| 0 <= i < encode_utf8(text).len() ==> encode_utf8(text)[i] != 0,
    ensures
        is_cstr(terminated(encode_utf8(text))),
        cstr_content(terminated(encode_utf8(text))) == encode_utf8(text),
        valid_utf8(cstr_content(terminated(encode_utf8(text)))),
        decode_utf8(cstr_content(terminated(encode_utf8(text)))) == text,
{
    let bytes = encode_utf8(text);
    assert(terminated(bytes).drop_last() =~= bytes);
    vstd::utf8::encode_utf8_valid_utf8(text);
    vstd::utf8::encode_utf8_decode_utf8(text);
}

/// A block made by terminating bytes is one zero-terminated string exactly
/// when the bytes hold no zero; with an inner zero the host sees the text cut
/// short there.
pub proof fn terminated_is_cstr_without_inner_zero(bytes: Seq<u8>)
    ensures
        is_cstr(terminated(bytes)) <==> forall|i: int| 0 <= i < bytes.len() ==> bytes[i] != 0,
        terminated(bytes).len() == bytes.len() + 1,
        terminated(bytes).last() == 0,
{
    let block = terminated(bytes);
    if is_cstr(block) {
        assert forall|i: int| 0 <= i < bytes.len() implies bytes[i] != 0 by {
            assert(block[i] == bytes[i]);
        }
    }
    if forall|i: int| 0 <= i < bytes.len() ==> bytes[i] != 0 {
        assert forall|i: int| 0 <= i < block.len() - 1 implies block[i] != 0 by {
            assert(block[i] == bytes[i]);
        }
    }
}

/// Whether `b` is an ASCII decimal digit.
pub open spec fn is_digit(b: u8) -> bool {
    48 <= b <= 57
}

/// Whether `bytes` is a run of at least one decimal digit.
pub open spec fn is_digits(bytes: Seq<u8>) -> bool {
    &&& bytes.len() > 0
    &&& forall|i: int| 0 <= i < bytes.len() ==> is_digit(#[trigger] bytes[i])
}

/// The digits of an unsigned decimal text: the text without a leading plus
/// sign.
pub open spec fn unsigned_digits(text: Seq<u8>) -> Seq<u8> {
    if text.len() > 0 && text[0] == 43 {
        text.skip(1)
    } else {
        text
    }
}

/// The number that a run of decimal digits writes.
pub open spec fn decimal_value(digits: Seq<u8>) -> int
    decreases digits.len(),
{
    if digits.len() == 0 {
        0
    } else {
        10 * decimal_value(digits.drop_last()) + (digits.last() - 48)
    }
}

/// A run of digits writes no negative number.
proof fn decimal_value_is_nonnegative(digits: Seq<u8>)
    requires
        forall|i: int| 0 <= i < digits.len() ==> is_digit(#[trigger] digits[i]),
    ensures
        decimal_value(digits) >= 0,
    decreases digits.len(),
{
    if digits.len() > 0 {
        decimal_value_is_nonnegative(digits.drop_last());
    }
}

/// One more digit multiplies the number by ten and adds the digit.
proof fn decimal_value_step(digits: Seq<u8>, i: int)
    requires
        0 <= i < digits.len(),
    ensures
        decimal_value(digits.take(i + 1)) == 10 * decimal_value(digits.take(i)) + (digits[i] - 48),
{
    assert(digits.take(i + 1).drop_last() =~= digits.take(i));
}

/// A prefix of a run of digits writes no larger number than the whole run.
proof fn decimal_value_of_prefix(digits: Seq<u8>, i: int)
    requires
        forall|k: int| 0 <= k < digits.len() ==> is_digit(#[trigger] digits[k]),
        0 <= i <= digits.len(),
    ensures
        0 <= decimal_value(digits.take(i)) <= decimal_value(digits),
    decreases digits.len() - i,
{
    decimal_value_is_nonnegative(digits.take(i));
    if i == digits.len() {
        assert(digits.take(i) =~= digits);
    } else {
        decimal_value_step(digits, i);
        decimal_value_of_prefix(digits, i + 1);
    }
}

/// Bytes below 128 are valid UTF-8 and decode byte by byte.
pub proof fn ascii_bytes_are_text(bytes: Seq<u8>)
    requires
        forall|i: int| 0 <= i < bytes.len() ==> #[trigger] bytes[i] < 128,
    ensures
        valid_utf8(bytes),
        decode_utf8(bytes) == Seq::new(bytes.len(), |i: int| bytes[i] as char),
{
    let chars = Seq::new(bytes.len(), |i: int| bytes[i] as char);
    assert(vstd::utf8::is_ascii_chars(chars));
    vstd::utf8::is_ascii_chars_encode_utf8(chars);
    assert forall|i: int| 0 <= i < bytes.len() implies encode_utf8(chars)[i] == bytes[i] by {
        assert(chars[i] as u8 == encode_utf8(chars)[i]);
    }
    assert(encode_utf8(chars) =~= bytes);
    vstd::utf8::encode_utf8_valid_utf8(chars);
    vstd::utf8::encode_utf8_decode_utf8(chars);
}

/// The text of the host's major release number, from the zero-terminated
/// constant of that name in the host's declarations.
pub fn get_pg_major_version_string(pg_majorversion: &[u8]) -> (text: String)
    requires
        is_cstr(pg_majorversion@),
        valid_utf8(cstr_content(pg_majorversion@)),
    ensures
        text@ == decode_utf8(cstr_content(pg_majorversion@)),
{
    cstr_text(pg_majorversion)
}

/// The host's major release number: the number that the digits of the
/// zero-terminated constant write. The constant is an unsigned decimal that
/// fits sixteen bits: digits, with at most a plus sign before them.
pub fn get_pg_major_version_num(pg_majorversion: &[u8]) -> (num: u16)
    requires
        is_cstr(pg_majorversion@),
        is_digits(unsigned_digits(cstr_content(pg_majorversion@))),
        decimal_value(unsigned_digits(cstr_content(pg_majorversion@))) <= u16::MAX,
    ensures
        num == decimal_value(unsigned_digits(cstr_content(pg_majorversion@))),
{
    let end: usize = pg_majorversion.len() - 1;
    let start: usize = if pg_majorversion[0] == 43 {
        1
    } else {
        0
    };
    let ghost digits = unsigned_digits(cstr_content(pg_majorversion@));
    assert(digits =~= pg_majorversion@.subrange(start as int, end as int));
    let mut acc: u32 = 0;
    let mut i: usize = start;
    while i < end
        invariant
            start <= i <= end,
            end == pg_majorversion@.len() - 1,
            digits == pg_majorversion@.subrange(start as int, end as int),
            forall|k: int| 0 <= k < digits.len() ==> is_digit(#[trigger] digits[k]),
            acc == decimal_value(digits.take(i - start)),
            decimal_value(digits) <= u16::MAX,
            acc <= u16::MAX,
        decreases end - i,
    {
        proof {
            decimal_value_step(digits, i - start);
            decimal_value_of_prefix(digits, i - start + 1);
            assert(digits[i - start] == pg_majorversion@[i as int]);
        }
        let digit: u8 = pg_majorversion[i] - 48;
        acc = acc * 10 + digit as u32;
        i = i + 1;
    }
    assert(digits.take(digits.len() as int) =~= digits);
    acc as u16
}

/// The full version text of the host, from the zero-terminated constant of
/// that name in the host's declarations.
pub fn get_pg_version_string(pg_version_str: &[u8]) -> (text: String)
    requires
        is_cstr(pg_version_str@),
        valid_utf8(cstr_content(pg_version_str@)),
    ensures
        text@ == decode_utf8(cstr_content(pg_version_str@)),
{
    cstr_text(pg_version_str)
}

/// The host's release number with its minor part, from the zero-terminated
/// constant of that name in the host's declarations.
pub fn get_pg_major_minor_version_string(pg_version: &[u8]) -> (text: String)
    requires
        is_cstr(pg_version@),
        valid_utf8(cstr_content(pg_version@)),
    ensures
        text@ == decode_utf8(cstr_content(pg_version@)),
{
    cstr_text(pg_version)
}

} // verus!
