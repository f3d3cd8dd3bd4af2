use vstd::prelude::*;
use crate::errors::PipelineError;
use crate::sniff::FormatTag;

verus! {

/// What gzip decompression yields for a byte stream: the decoded bytes,
/// or nothing where the stream is not a well-formed gzip stream. The
/// result depends on the input bytes alone.
pub uninterp spec fn gunzip_of(data: Seq<u8>) -> Option<Seq<u8>>;

/// What bzip2 decompression yields for a byte stream, or nothing where
/// the stream is malformed. The result depends on the input bytes alone.
pub uninterp spec fn bunzip_of(data: Seq<u8>) -> Option<Seq<u8>>;

/// What xz decompression yields for a byte stream, or nothing where the
/// stream is malformed. The result depends on the input bytes alone.
pub uninterp spec fn unxz_of(data: Seq<u8>) -> Option<Seq<u8>>;

/// Relies on flate2::read::GzDecoder: reading it to the end yields the
/// gzip decoding of the input bytes, a function of those bytes alone,
/// and fails exactly where the stream is not valid gzip.
#[verifier::external_body]
fn gz_decode(data: &[u8]) -> (r: Option<Vec<u8>>)
    ensures
        r is Some <==> gunzip_of(data@) is Some,
        r matches Some(v) ==> gunzip_of(data@) == Some(v@),
{
    let mut decoder = flate2::read::GzDecoder::new(data);
    let mut out: Vec<u8> = Vec::new();
    match std::io::Read::read_to_end(&mut decoder, &mut out) {
        Ok(_) => Some(out),
        Err(_) => None,
    }
}

/// Relies on bzip2::read::BzDecoder: reading it to the end yields the
/// bzip2 decoding of the input bytes, a function of those bytes alone,
/// and fails exactly where the stream is not valid bzip2.
#[verifier::external_body]
fn bz2_decode(data: &[u8]) -> (r: Option<Vec<u8>>)
    ensures
        r is Some <==> bunzip_of(data@) is Some,
        r matches Some(v) ==> bunzip_of(data@) == Some(v@),
{
    let mut decoder = bzip2::read::BzDecoder::new(data);
    let mut out: Vec<u8> = Vec::new();
    match std::io::Read::read_to_end(&mut decoder, &mut out) {
        Ok(_) => Some(out),
        Err(_) => None,
    }
}

/// Relies on xz2::read::XzDecoder: reading it to the end yields the xz
/// decoding of the input bytes, a function of those bytes alone, and
/// fails exactly where the stream is not valid xz.
#[verifier::external_body]
fn xz_decode(data: &[u8]) -> (r: Option<Vec<u8>>)
    ensures
        r is Some <==> unxz_of(data@) is Some,
        r matches Some(v) ==> unxz_of(data@) == Some(v@),
{
    let mut decoder = xz2::read::XzDecoder::new(data);
    let mut out: Vec<u8> = Vec::new();
    match std::io::Read::read_to_end(&mut decoder, &mut out) {
        Ok(_) => Some(out),
        Err(_) => None,
    }
}

/// The tar-format bytes that selecting a decoder for `tag` and running
/// it over `data` must yield: the stream unchanged for raw tar, the
/// matching decoding for the three compressed formats, and nothing for
/// the legacy compress format, which has no decoder wired up.
pub open spec fn decode_spec(tag: FormatTag, data: Seq<u8>) -> Option<Seq<u8>> {
    match tag {
        FormatTag::Tar => Some(data),
        FormatTag::Gzip => gunzip_of(data),
        FormatTag::Bzip2 => bunzip_of(data),
        FormatTag::Xz => unxz_of(data),
        FormatTag::LegacyCompress => None,
    }
}

/// Select the decompression transform for `tag` and decode `data` with
/// it. Raw tar passes through unchanged; the legacy compress format is
/// refused outright with the distinct "unsupported" error; a malformed
/// compressed stream is a decode error.
pub fn select_and_decode(tag: FormatTag, data: Vec<u8>) -> (r: Result<Vec<u8>, PipelineError>)
    ensures
        tag is LegacyCompress ==> r == Err::<Vec<u8>, PipelineError>(
            PipelineError::UnsupportedFormat,
        ),
        !(tag is LegacyCompress) ==> (r is Ok <==> decode_spec(tag, data@) is Some),
        r matches Ok(v) ==> decode_spec(tag, data@) == Some(v@),
        !(tag is LegacyCompress) && decode_spec(tag, data@) is None ==> r == Err::<
            Vec<u8>,
            PipelineError,
        >(PipelineError::Decode),
{
    match tag {
        FormatTag::Tar => Ok(data),
        FormatTag::Gzip => match gz_decode(data.as_slice()) {
            Some(v) => Ok(v),
            None => Err(PipelineError::Decode),
        },
        FormatTag::Bzip2 => match bz2_decode(data.as_slice()) {
            Some(v) => Ok(v),
            None => Err(PipelineError::Decode),
        },
        FormatTag::Xz => match xz_decode(data.as_slice()) {
            Some(v) => Ok(v),
            None => Err(PipelineError::Decode),
        },
        FormatTag::LegacyCompress => Err(PipelineError::UnsupportedFormat),
    }
}

} // verus!
