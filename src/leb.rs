use vstd::prelude::*;

verus! {

/// The value and the number of bytes that an unsigned LEB128 reading of a
/// 32-bit integer at the start of `s` gives, if it succeeds.
pub uninterp spec fn leb128_u32_of(s: Seq<u8>) -> Option<(u32, int)>;

/// The value and the number of bytes that a signed LEB128 reading of a
/// 64-bit integer at the start of `s` gives, if it succeeds.
pub uninterp spec fn leb128_i64_of(s: Seq<u8>) -> Option<(i64, int)>;

/// The text that the bytes `b` spell as UTF-8, if they are valid UTF-8.
pub uninterp spec fn utf8_text_of(b: Seq<u8>) -> Option<Seq<char>>;

/// Relies on nom_leb128::leb128_u32: on success it consumes at least one
/// byte of its input and hands back the rest; the value and the count depend
/// on the bytes alone.
#[verifier::external_body]
pub(crate) fn leb_u32(s: &[u8], p: usize) -> (r: Option<(u32, usize)>)
    requires
        p <= s@.len(),
    ensures
        match r {
            Some((v, rest)) => rest < s@.len() - p && leb128_u32_of(
                s@.subrange(p as int, s@.len() as int),
            ) == Some((v, s@.len() - p - rest)),
            None => leb128_u32_of(s@.subrange(p as int, s@.len() as int)) is None,
        },
{
    match nom_leb128::leb128_u32::<&[u8], nom::error::Error<&[u8]>>(&s[p..]) {
        Ok((rest, v)) => Some((v, rest.len())),
        Err(_) => None,
    }
}

/// Relies on nom_leb128::leb128_i64: on success it consumes at least one
/// byte of its input and hands back the rest; the value and the count depend
/// on the bytes alone.
#[verifier::external_body]
pub(crate) fn leb_i64(s: &[u8], p: usize) -> (r: Option<(i64, usize)>)
    requires
        p <= s@.len(),
    ensures
        match r {
            Some((v, rest)) => rest < s@.len() - p && leb128_i64_of(
                s@.subrange(p as int, s@.len() as int),
            ) == Some((v, s@.len() - p - rest)),
            None => leb128_i64_of(s@.subrange(p as int, s@.len() as int)) is None,
        },
{
    match nom_leb128::leb128_i64::<&[u8], nom::error::Error<&[u8]>>(&s[p..]) {
        Ok((rest, v)) => Some((v, rest.len())),
        Err(_) => None,
    }
}

/// Relies on String::from_utf8: it succeeds exactly on valid UTF-8, and the
/// text depends on the bytes alone.
#[verifier::external_body]
pub(crate) fn utf8_text(b: &[u8]) -> (r: Option<String>)
    ensures
        match r {
            Some(t) => utf8_text_of(b@) == Some(t@),
            None => utf8_text_of(b@) is None,
        },
{
    match String::from_utf8(b.to_vec()) {
        Ok(t) => Some(t),
        Err(_) => None,
    }
}

} // verus!
