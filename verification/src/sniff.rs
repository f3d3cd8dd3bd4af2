use vstd::prelude::*;
use crate::errors::PipelineError;
use crate::source::ByteSource;

verus! {

/// The closed set of container formats the sniffer can recognize,
/// derived purely from a six-byte magic prefix.
#[derive(Clone, Copy, Debug, PartialEq, Eq, Structural)]
pub enum FormatTag {
    /// An uncompressed tar stream.
    Tar,
    /// A gzip-compressed stream.
    Gzip,
    /// A bzip2-compressed stream.
    Bzip2,
    /// An xz-compressed stream.
    Xz,
    /// The legacy compress ("z") format: recognized, but no decoder is
    /// wired up for it.
    LegacyCompress,
}

/// Classification of a six-byte prefix: the magic patterns, checked as
/// exact byte matches, first match wins. Anything shorter or unmatched
/// classifies as nothing.
pub open spec fn sniff_spec(p: Seq<u8>) -> Option<FormatTag> {
    if p.len() < 6 {
        None
    } else if p[0] == 0x1f && p[1] == 0x8b && p[2] == 0x08 {
        Some(FormatTag::Gzip)
    } else if p[0] == 0x42 && p[1] == 0x5a && p[2] == 0x68 {
        Some(FormatTag::Bzip2)
    } else if p[0] == 0xfd && p[1] == 0x37 && p[2] == 0x7a && p[3] == 0x58 && p[4] == 0x5a && p[5]
        == 0x00 {
        Some(FormatTag::Xz)
    } else if p[0] == 0x75 && p[1] == 0x73 {
        Some(FormatTag::Tar)
    } else if p[0] == 0x1f && p[1] == 0x9d && p[2] == 0x00 && p[3] == 0x00 {
        Some(FormatTag::LegacyCompress)
    } else {
        None
    }
}

/// Sniff the container format from the next six bytes of the source.
/// Observation-only with respect to the bytes: the data is never
/// changed, and the position moves exactly as a six-byte read does, so
/// a rewind restores the source completely.
pub fn detect_filetype(src: &mut ByteSource) -> (r: Result<FormatTag, PipelineError>)
    requires
        old(src).wf(),
    ensures
        final(src).wf(),
        final(src)@ == old(src)@,
        old(src).position() + 6 > old(src)@.len() ==> {
            &&& r == Err::<FormatTag, PipelineError>(PipelineError::ShortRead)
            &&& final(src).position() == old(src).position()
        },
        old(src).position() + 6 <= old(src)@.len() ==> {
            &&& final(src).position() == old(src).position() + 6
            &&& match sniff_spec(
                old(src)@.subrange(old(src).position(), old(src).position() + 6),
            ) {
                Some(tag) => r == Ok::<FormatTag, PipelineError>(tag),
                None => r == Err::<FormatTag, PipelineError>(PipelineError::UnrecognizedFormat),
            }
        },
{
    let buffer = match src.read_exact(6) {
        Some(b) => b,
        None => {
            return Err(PipelineError::ShortRead);
        },
    };
    assert(buffer@.len() == 6);
    if buffer[0] == 0x1f && buffer[1] == 0x8b && buffer[2] == 0x08 {
        Ok(FormatTag::Gzip)
    } else if buffer[0] == 0x42 && buffer[1] == 0x5a && buffer[2] == 0x68 {
        Ok(FormatTag::Bzip2)
    } else if buffer[0] == 0xfd && buffer[1] == 0x37 && buffer[2] == 0x7a && buffer[3] == 0x58
        && buffer[4] == 0x5a && buffer[5] == 0x00 {
        Ok(FormatTag::Xz)
    } else if buffer[0] == 0x75 && buffer[1] == 0x73 {
        Ok(FormatTag::Tar)
    } else if buffer[0] == 0x1f && buffer[1] == 0x9d && buffer[2] == 0x00 && buffer[3] == 0x00 {
        Ok(FormatTag::LegacyCompress)
    } else {
        Err(PipelineError::UnrecognizedFormat)
    }
}

} // verus!
