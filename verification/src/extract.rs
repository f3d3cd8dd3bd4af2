use vstd::prelude::*;
use crate::archive::all_paths_safe;
use crate::archive::all_triple_paths_safe;
use crate::archive::entries_are_safe;
use crate::archive::entries_view;
use crate::archive::lemma_entries_view_safe;
use crate::archive::tar_list;
use crate::archive::tar_archive_of;
use crate::archive::TarEntry;
use crate::decode::decode_spec;
use crate::decode::select_and_decode;
use crate::errors::PipelineError;
use crate::sniff::detect_filetype;
use crate::sniff::sniff_spec;
use crate::sniff::FormatTag;
use crate::source::ByteSource;

verus! {

/// The product of a successful extraction: the sniffed format, the
/// decoded tar-format bytes, and the archive's entries as plain values.
#[derive(Debug)]
pub struct Extraction {
    pub tag: FormatTag,
    pub tar_bytes: Vec<u8>,
    pub entries: Vec<TarEntry>,
}

/// What extracting a downloaded file's bytes must yield, as a function
/// of those bytes alone: sniff the six-byte prefix, decode the whole
/// stream with the selected transform, parse the result as a tar
/// archive, and refuse entries that would escape the destination. Each
/// stage's failure aborts the pipeline with that stage's error.
pub open spec fn extract_spec(data: Seq<u8>) -> Result<
    (FormatTag, Seq<u8>, Seq<(Seq<u8>, bool, Seq<u8>)>),
    PipelineError,
> {
    if data.len() < 6 {
        Err(PipelineError::ShortRead)
    } else {
        match sniff_spec(data.subrange(0, 6)) {
            Option::None => Err(PipelineError::UnrecognizedFormat),
            Option::Some(tag) => if tag is LegacyCompress {
                Err(PipelineError::UnsupportedFormat)
            } else {
                match decode_spec(tag, data) {
                    Option::None => Err(PipelineError::Decode),
                    Option::Some(tar_bytes) => match tar_archive_of(tar_bytes) {
                        Option::None => Err(PipelineError::Decode),
                        Option::Some(es) => if all_triple_paths_safe(es) {
                            Ok((tag, tar_bytes, es))
                        } else {
                            Err(PipelineError::UnsafeEntryPath)
                        },
                    },
                }
            },
        }
    }
}

/// Run the extraction pipeline over the bytes of the downloaded file:
/// sniff the format, rewind, select and run the decompression
/// transform, and parse the decoded stream as a tar archive. The result
/// is exactly what `extract_spec` prescribes for the input bytes.
pub fn extract_archive(data: Vec<u8>) -> (r: Result<Extraction, PipelineError>)
    ensures
        r matches Ok(ex) ==> extract_spec(data@) == Ok::<
            (FormatTag, Seq<u8>, Seq<(Seq<u8>, bool, Seq<u8>)>),
            PipelineError,
        >((ex.tag, ex.tar_bytes@, entries_view(ex.entries@))),
        r matches Ok(ex) ==> all_paths_safe(ex.entries@),
        r matches Err(e) ==> extract_spec(data@) == Err::<
            (FormatTag, Seq<u8>, Seq<(Seq<u8>, bool, Seq<u8>)>),
            PipelineError,
        >(e),
{
    let ghost d: Seq<u8> = data@;
    let mut src = ByteSource::new(data);
    let tag = match detect_filetype(&mut src) {
        Ok(t) => t,
        Err(e) => {
            return Err(e);
        },
    };
    src.rewind();
    let raw = src.into_remaining();
    assert(raw@ == d) by {
        assert(d.skip(0) =~= d);
    }
    let tar_bytes = match select_and_decode(tag, raw) {
        Ok(v) => v,
        Err(e) => {
            return Err(e);
        },
    };
    let entries = match tar_list(tar_bytes.as_slice()) {
        Some(es) => es,
        None => {
            return Err(PipelineError::Decode);
        },
    };
    proof {
        lemma_entries_view_safe(entries@);
    }
    if !entries_are_safe(&entries) {
        return Err(PipelineError::UnsafeEntryPath);
    }
    Ok(Extraction { tag, tar_bytes, entries })
}

/// Sniffing is observation-only: `detect_filetype` leaves the bytes of
/// the source untouched, so a source that was sniffed and then rewound
/// decodes to output byte-identical to that of a source never advanced.
pub proof fn lemma_sniff_is_observation_only(untouched: Seq<u8>, sniffed_rewound: Seq<u8>)
    requires
        sniffed_rewound == untouched,
    ensures
        forall|tag: FormatTag| decode_spec(tag, sniffed_rewound) == decode_spec(tag, untouched),
        extract_spec(sniffed_rewound) == extract_spec(untouched),
{
}

/// Running the pipeline twice over the same bytes resolves to the same
/// outcome: extraction is a function of the downloaded bytes alone, so
/// a second run against a freshly wiped working directory repeats the
/// first run's result.
pub proof fn lemma_extraction_idempotent(first_run: Seq<u8>, second_run: Seq<u8>)
    requires
        second_run == first_run,
    ensures
        extract_spec(second_run) == extract_spec(first_run),
{
}

} // verus!
