use std::io::Read;

use wetter::decode::select_and_decode;
use wetter::errors::PipelineError;
use wetter::extract::extract_archive;
use wetter::layout::{resolve_source_dir, DirEntryInfo};
use wetter::sniff::{detect_filetype, FormatTag};
use wetter::source::ByteSource;

fn append_dir(builder: &mut tar::Builder<Vec<u8>>, path: &str) {
    let mut header = tar::Header::new_ustar();
    header.set_entry_type(tar::EntryType::dir());
    header.set_size(0);
    header.set_mode(0o755);
    builder.append_data(&mut header, path, &[][..]).unwrap();
}

fn append_file(builder: &mut tar::Builder<Vec<u8>>, path: &str, content: &[u8]) {
    let mut header = tar::Header::new_ustar();
    header.set_entry_type(tar::EntryType::file());
    header.set_size(content.len() as u64);
    header.set_mode(0o644);
    builder.append_data(&mut header, path, content).unwrap();
}

/// A small directory tree under one top-level directory, as a raw tar
/// stream. The top name starts with "us" so that the raw stream itself
/// sniffs as tar through the ustar-magic rule.
fn small_tree_tar(top: &str) -> Vec<u8> {
    let mut builder = tar::Builder::new(Vec::new());
    append_dir(&mut builder, &format!("{}/", top));
    append_dir(&mut builder, &format!("{}/docs/", top));
    append_file(&mut builder, &format!("{}/README", top), b"hello, tree\n");
    append_file(&mut builder, &format!("{}/docs/guide.txt", top), b"guide body");
    builder.into_inner().unwrap()
}

fn gzip(data: &[u8]) -> Vec<u8> {
    let mut out = Vec::new();
    flate2::read::GzEncoder::new(data, flate2::Compression::default())
        .read_to_end(&mut out)
        .unwrap();
    out
}

fn bzip(data: &[u8]) -> Vec<u8> {
    let mut out = Vec::new();
    bzip2::read::BzEncoder::new(data, bzip2::Compression::new(6))
        .read_to_end(&mut out)
        .unwrap();
    out
}

fn xz(data: &[u8]) -> Vec<u8> {
    let mut out = Vec::new();
    xz2::read::XzEncoder::new(data, 6)
        .read_to_end(&mut out)
        .unwrap();
    out
}

fn sniff_bytes(data: Vec<u8>) -> Result<FormatTag, PipelineError> {
    let mut source = ByteSource::new(data);
    detect_filetype(&mut source)
}

#[test]
fn sniff_gzip_magic() {
    assert_eq!(
        sniff_bytes(vec![0x1f, 0x8b, 0x08, 0xaa, 0xbb, 0xcc]),
        Ok(FormatTag::Gzip)
    );
}

#[test]
fn sniff_bzip2_magic() {
    assert_eq!(
        sniff_bytes(b"BZh91AY".to_vec()),
        Ok(FormatTag::Bzip2)
    );
}

#[test]
fn sniff_xz_magic() {
    assert_eq!(
        sniff_bytes(vec![0xfd, b'7', b'z', b'X', b'Z', 0x00]),
        Ok(FormatTag::Xz)
    );
}

#[test]
fn sniff_ustar_magic() {
    assert_eq!(sniff_bytes(b"usbox/".to_vec()), Ok(FormatTag::Tar));
}

#[test]
fn sniff_legacy_compress_magic() {
    assert_eq!(
        sniff_bytes(vec![0x1f, 0x9d, 0x00, 0x00, 0x01, 0x02]),
        Ok(FormatTag::LegacyCompress)
    );
}

#[test]
fn sniff_unknown_prefix_fails() {
    assert_eq!(
        sniff_bytes(vec![0x50, 0x4b, 0x03, 0x04, 0x00, 0x00]),
        Err(PipelineError::UnrecognizedFormat)
    );
}

#[test]
fn sniff_short_input_fails() {
    assert_eq!(
        sniff_bytes(vec![0x1f, 0x8b, 0x08]),
        Err(PipelineError::ShortRead)
    );
    assert_eq!(sniff_bytes(Vec::new()), Err(PipelineError::ShortRead));
}

#[test]
fn sniff_is_observation_only() {
    let compressed = gzip(&small_tree_tar("usbox"));

    let mut sniffed = ByteSource::new(compressed.clone());
    let tag = detect_filetype(&mut sniffed).unwrap();
    sniffed.rewind();
    let after_rewind = sniffed.into_remaining();
    assert_eq!(after_rewind, compressed);

    let untouched = ByteSource::new(compressed.clone()).into_remaining();
    let decoded_after_sniff = select_and_decode(tag, after_rewind).unwrap();
    let decoded_untouched = select_and_decode(tag, untouched).unwrap();
    assert_eq!(decoded_after_sniff, decoded_untouched);
}

fn assert_tree_reproduced(data: Vec<u8>, expected_tag: FormatTag, top: &str) {
    let extraction = extract_archive(data).unwrap();
    assert_eq!(extraction.tag, expected_tag);
    let entries = &extraction.entries;
    assert_eq!(entries.len(), 4);
    assert_eq!(entries[0].path, format!("{}/", top).into_bytes());
    assert!(entries[0].is_dir);
    assert_eq!(entries[1].path, format!("{}/docs/", top).into_bytes());
    assert!(entries[1].is_dir);
    assert_eq!(entries[2].path, format!("{}/README", top).into_bytes());
    assert!(!entries[2].is_dir);
    assert_eq!(entries[2].data, b"hello, tree\n".to_vec());
    assert_eq!(entries[3].path, format!("{}/docs/guide.txt", top).into_bytes());
    assert!(!entries[3].is_dir);
    assert_eq!(entries[3].data, b"guide body".to_vec());
}

#[test]
fn round_trip_raw_tar() {
    assert_tree_reproduced(small_tree_tar("usbox"), FormatTag::Tar, "usbox");
}

#[test]
fn round_trip_gzip() {
    assert_tree_reproduced(gzip(&small_tree_tar("usbox")), FormatTag::Gzip, "usbox");
}

#[test]
fn round_trip_bzip2() {
    assert_tree_reproduced(bzip(&small_tree_tar("usbox")), FormatTag::Bzip2, "usbox");
}

#[test]
fn round_trip_xz() {
    assert_tree_reproduced(xz(&small_tree_tar("usbox")), FormatTag::Xz, "usbox");
}

#[test]
fn legacy_compress_is_unsupported() {
    let data = vec![0x1f, 0x9d, 0x00, 0x00, 0x10, 0x20, 0x30];
    let err = extract_archive(data).unwrap_err();
    assert_eq!(err, PipelineError::UnsupportedFormat);
    assert_ne!(err, PipelineError::Decode);
    assert_ne!(err, PipelineError::UnrecognizedFormat);

    let direct = select_and_decode(FormatTag::LegacyCompress, vec![1, 2, 3]);
    assert_eq!(direct, Err(PipelineError::UnsupportedFormat));
}

#[test]
fn unrecognized_prefix_aborts() {
    let err = extract_archive(vec![0x00, 0x11, 0x22, 0x33, 0x44, 0x55]).unwrap_err();
    assert_eq!(err, PipelineError::UnrecognizedFormat);
}

#[test]
fn corrupt_gzip_is_decode_error() {
    let mut data = vec![0x1f, 0x8b, 0x08, 0x00, 0x00, 0x00];
    data.extend_from_slice(b"definitely not a gzip body");
    assert_eq!(extract_archive(data).unwrap_err(), PipelineError::Decode);
}

#[test]
fn corrupt_tar_after_decode_is_decode_error() {
    // Valid gzip stream whose decoded payload is not a tar archive.
    let data = gzip(b"just some plain text, nothing like a tar header");
    assert_eq!(extract_archive(data).unwrap_err(), PipelineError::Decode);
}

fn entry(name: &str, is_dir: bool) -> DirEntryInfo {
    DirEntryInfo {
        name: name.as_bytes().to_vec(),
        is_dir,
    }
}

#[test]
fn layout_zero_dirs_fails() {
    let listing = vec![entry("a.tar.gz", false), entry("notes.txt", false)];
    assert_eq!(
        resolve_source_dir(&listing),
        Err(PipelineError::NoSourceDir)
    );
    assert_eq!(
        resolve_source_dir(&Vec::new()),
        Err(PipelineError::NoSourceDir)
    );
}

#[test]
fn layout_two_dirs_fails() {
    let listing = vec![entry("one", true), entry("a.tar.gz", false), entry("two", true)];
    assert_eq!(
        resolve_source_dir(&listing),
        Err(PipelineError::NoSourceDir)
    );
}

#[test]
fn layout_single_dir_resolves() {
    let listing = vec![
        entry("project-1.0.tar.gz", false),
        entry("project-1.0", true),
        entry("checksum.txt", false),
    ];
    assert_eq!(
        resolve_source_dir(&listing),
        Ok(b"project-1.0".to_vec())
    );
}

#[test]
fn gzip_single_project_end_to_end() {
    // A gzip-compressed tar holding one top-level directory with one file.
    let mut builder = tar::Builder::new(Vec::new());
    append_dir(&mut builder, "project-1.0/");
    append_file(&mut builder, "project-1.0/README", b"original content\n");
    let data = gzip(&builder.into_inner().unwrap());

    let extraction = extract_archive(data).unwrap();
    assert_eq!(extraction.tag, FormatTag::Gzip);
    assert_eq!(extraction.entries.len(), 2);
    assert_eq!(extraction.entries[1].path, b"project-1.0/README".to_vec());
    assert_eq!(extraction.entries[1].data, b"original content\n".to_vec());

    // The working directory afterwards: the downloaded archive file and
    // the one extracted directory.
    let listing = vec![entry("project-1.0.tar.gz", false), entry("project-1.0", true)];
    assert_eq!(resolve_source_dir(&listing), Ok(b"project-1.0".to_vec()));
}

#[test]
fn extraction_twice_same_result() {
    let data = gzip(&small_tree_tar("usbox"));
    let first = extract_archive(data.clone()).unwrap();
    let second = extract_archive(data).unwrap();
    assert_eq!(first.tag, second.tag);
    assert_eq!(first.tar_bytes, second.tar_bytes);
    assert_eq!(first.entries.len(), second.entries.len());
    for (a, b) in first.entries.iter().zip(second.entries.iter()) {
        assert_eq!(a.path, b.path);
        assert_eq!(a.is_dir, b.is_dir);
        assert_eq!(a.data, b.data);
    }
}

/// A raw ustar header block for an entry, checksum included. Built by
/// hand so the entry may carry a path that archive builders refuse.
fn raw_header(name: &[u8], typeflag: u8, size: usize) -> Vec<u8> {
    let mut h = vec![0u8; 512];
    h[..name.len()].copy_from_slice(name);
    h[100..108].copy_from_slice(b"0000644\0");
    h[108..116].copy_from_slice(b"0000000\0");
    h[116..124].copy_from_slice(b"0000000\0");
    h[124..136].copy_from_slice(format!("{:011o}\0", size).as_bytes());
    h[136..148].copy_from_slice(b"00000000000\0");
    h[156] = typeflag;
    h[257..263].copy_from_slice(b"ustar\0");
    h[263..265].copy_from_slice(b"00");
    for b in h[148..156].iter_mut() {
        *b = b' ';
    }
    let sum: u32 = h.iter().map(|&b| b as u32).sum();
    h[148..156].copy_from_slice(format!("{:06o}\0 ", sum).as_bytes());
    h
}

#[test]
fn parent_escaping_entry_is_refused() {
    // A well-formed tar stream whose one entry points above the
    // destination directory.
    let mut tar_bytes = raw_header(b"../evil", b'0', 0);
    tar_bytes.extend_from_slice(&[0u8; 1024]);
    let data = gzip(&tar_bytes);
    assert_eq!(
        extract_archive(data).unwrap_err(),
        PipelineError::UnsafeEntryPath
    );
}

#[test]
fn absolute_entry_is_refused() {
    let mut tar_bytes = raw_header(b"/etc/evil", b'0', 0);
    tar_bytes.extend_from_slice(&[0u8; 1024]);
    let data = gzip(&tar_bytes);
    assert_eq!(
        extract_archive(data).unwrap_err(),
        PipelineError::UnsafeEntryPath
    );
}

#[test]
fn decoded_output_differs_from_compressed_input() {
    let tar_bytes = small_tree_tar("usbox");
    let compressed = gzip(&tar_bytes);
    assert_ne!(compressed, tar_bytes);
    let decoded = select_and_decode(FormatTag::Gzip, compressed).unwrap();
    assert_eq!(decoded, tar_bytes);
}
