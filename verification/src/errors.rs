use vstd::prelude::*;

verus! {

/// The failures the extraction pipeline can report. Every stage is
/// fail-fast: the first error aborts the whole run.
#[derive(Clone, Copy, Debug, PartialEq, Eq, Structural)]
pub enum PipelineError {
    /// Fewer than six bytes were available for sniffing.
    ShortRead,
    /// The six-byte prefix matched no known magic pattern.
    UnrecognizedFormat,
    /// The prefix was recognized, but no decoder is wired up for it.
    UnsupportedFormat,
    /// The compressed stream or the tar structure could not be decoded.
    Decode,
    /// An entry carried an absolute or parent-escaping path.
    UnsafeEntryPath,
    /// The working directory did not hold exactly one directory after
    /// unpacking.
    NoSourceDir,
}

impl PipelineError {
    /// A short human-readable description, for the surrounding program
    /// to print.
    pub fn describe(&self) -> (r: &'static str)
        ensures
            self is ShortRead ==> r@ == "Could not read the file prefix"@,
            self is UnrecognizedFormat ==> r@ == "Unknown file type"@,
            self is UnsupportedFormat ==> r@ == "Unsupported file format"@,
            self is Decode ==> r@ == "Failed to unpack archive"@,
            self is UnsafeEntryPath ==> r@ == "Archive entry has a disallowed path"@,
            self is NoSourceDir ==> r@ == "No valid source directory found"@,
    {
        match self {
            PipelineError::ShortRead => "Could not read the file prefix",
            PipelineError::UnrecognizedFormat => "Unknown file type",
            PipelineError::UnsupportedFormat => "Unsupported file format",
            PipelineError::Decode => "Failed to unpack archive",
            PipelineError::UnsafeEntryPath => "Archive entry has a disallowed path",
            PipelineError::NoSourceDir => "No valid source directory found",
        }
    }
}

} // verus!
