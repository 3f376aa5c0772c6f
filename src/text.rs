//! Text decoding of the single-byte string fields.
use vstd::prelude::*;

verus! {

/// Whether `codepage::to_encoding` maps the code page to an encoding: the 53
/// code pages of its table.
#[verifier::opaque]
pub open spec fn code_page_known(code_page: u16) -> bool {
    code_page == 65001 || code_page == 1200 || code_page == 1252 || code_page == 1251
        || code_page == 936 || code_page == 932 || code_page == 949 || code_page == 1250
        || code_page == 1256 || code_page == 1254 || code_page == 950 || code_page == 874
        || code_page == 1255 || code_page == 1253 || code_page == 1257 || code_page == 1258
        || code_page == 20932 || code_page == 28592 || code_page == 28605 || code_page == 28597
        || code_page == 20866 || code_page == 54936 || code_page == 28595 || code_page == 38598
        || code_page == 28594 || code_page == 28596 || code_page == 50221 || code_page == 21866
        || code_page == 28603 || code_page == 28593 || code_page == 1201 || code_page == 866
        || code_page == 28600 || code_page == 28598 || code_page == 10000 || code_page == 10017
        || code_page == 28604 || code_page == 28606 || code_page == 951 || code_page == 10007
        || code_page == 20936 || code_page == 20949 || code_page == 21010 || code_page == 28591
        || code_page == 28599 || code_page == 28601 || code_page == 50220 || code_page == 50222
        || code_page == 50225 || code_page == 50227 || code_page == 51936 || code_page == 51949
        || code_page == 52936
}

/// The text that `data` decodes to in the encoding of a known code page.
pub uninterp spec fn cp_text(data: Seq<u8>, code_page: u16) -> Seq<char>;

/// Relies on `codepage::to_encoding`: it returns `Some` exactly for the code
/// pages of its table (`CODE_PAGES`).
#[verifier::external_body]
pub(crate) fn code_page_supported(code_page: u16) -> (r: bool)
    ensures
        r == code_page_known(code_page),
{
    codepage::to_encoding(code_page).is_some()
}

/// Relies on `codepage::to_encoding` and
/// `encoding_rs::Encoding::decode_without_bom_handling`: a known code page
/// always yields an encoding, and decoding with it never fails (malformed
/// sequences become U+FFFD); the text depends on the bytes and the code page
/// alone. The decoder's buffer size computation overflows only on inputs far
/// longer than any 32-bit length.
#[verifier::external_body]
pub(crate) fn cp_to_string(data: &[u8], code_page: u16) -> (r: String)
    requires
        code_page_known(code_page),
        data@.len() <= u32::MAX,
    ensures
        r@ == cp_text(data@, code_page),
{
    codepage::to_encoding(code_page).unwrap().decode_without_bom_handling(data).0.into_owned()
}

} // verus!
