use wetter::archive::entry_path_is_safe;
use wetter::errors::PipelineError;
use wetter::filename::derive_filename;
use wetter::has_root_privileges;
use wetter::quirks::fix_quirk_name;
use wetter::source::ByteSource;

fn name_for(cd: Option<&str>, url: &str) -> Vec<u8> {
    derive_filename(cd.map(|s| s.as_bytes()), url.as_bytes())
}

#[test]
fn filename_from_quoted_header() {
    let cd = Some("attachment; filename=\"project-1.0.tar.gz\"");
    assert_eq!(
        name_for(cd, "http://example.test/dl"),
        b"project-1.0.tar.gz".to_vec()
    );
}

#[test]
fn filename_from_unquoted_header() {
    let cd = Some("attachment; filename=archive.tar.xz");
    assert_eq!(name_for(cd, "http://x/y"), b"archive.tar.xz".to_vec());
}

#[test]
fn filename_header_key_case_ignored() {
    let cd = Some("Attachment; FILENAME=\"caps.tar\"");
    assert_eq!(name_for(cd, "http://x/y"), b"caps.tar".to_vec());
}

#[test]
fn filename_first_matching_param_wins() {
    let cd = Some("filename=first.tar; filename=second.tar");
    assert_eq!(name_for(cd, "http://x/y"), b"first.tar".to_vec());
}

#[test]
fn filename_param_without_equals_skipped() {
    let cd = Some("inline; filename; filename=real.tar");
    assert_eq!(name_for(cd, "http://x/y"), b"real.tar".to_vec());
}

#[test]
fn filename_key_with_trailing_space_skipped() {
    // The key is split off before any trimming inside the parameter, so
    // "filename " with a space does not match.
    let cd = Some("attachment; filename =\"spaced.tar\"");
    assert_eq!(name_for(cd, "http://x/last-piece"), b"last-piece".to_vec());
}

#[test]
fn filename_falls_back_to_url_segment() {
    assert_eq!(
        name_for(None, "http://example.test/files/pkg-2.1.tar.bz2"),
        b"pkg-2.1.tar.bz2".to_vec()
    );
}

#[test]
fn filename_header_without_name_falls_back() {
    let cd = Some("inline; charset=utf-8");
    assert_eq!(name_for(cd, "http://x/a/b/c.tar"), b"c.tar".to_vec());
}

#[test]
fn filename_url_without_slash_is_whole() {
    assert_eq!(name_for(None, "bare-name.tar"), b"bare-name.tar".to_vec());
}

#[test]
fn filename_url_trailing_slash_gives_empty() {
    assert_eq!(name_for(None, "http://example.test/dir/"), b"".to_vec());
}

#[test]
fn quirk_suffix_stripped() {
    assert_eq!(
        fix_quirk_name(b"project-1.0.tar.gz?viasf=1"),
        Some(b"project-1.0.tar.gz".to_vec())
    );
}

#[test]
fn quirk_absent_leaves_name() {
    assert_eq!(fix_quirk_name(b"project-1.0.tar.gz"), None);
    assert_eq!(fix_quirk_name(b""), None);
}

#[test]
fn quirk_inner_occurrence_stripped() {
    assert_eq!(
        fix_quirk_name(b"a?viasf=1b?viasf=1c"),
        Some(b"abc".to_vec())
    );
}

#[test]
fn path_plain_is_safe() {
    assert!(entry_path_is_safe(b"project-1.0/src/main.c"));
    assert!(entry_path_is_safe(b"project-1.0/"));
}

#[test]
fn path_absolute_is_refused() {
    assert!(!entry_path_is_safe(b"/etc/passwd"));
}

#[test]
fn path_parent_escape_is_refused() {
    assert!(!entry_path_is_safe(b"../evil"));
    assert!(!entry_path_is_safe(b"a/../../evil"));
    assert!(!entry_path_is_safe(b"a/.."));
    assert!(!entry_path_is_safe(b".."));
}

#[test]
fn path_dots_inside_names_are_safe() {
    assert!(entry_path_is_safe(b"a..b/c"));
    assert!(entry_path_is_safe(b"a/.hidden"));
    assert!(entry_path_is_safe(b"a/..b"));
}

#[test]
fn byte_source_reads_and_rewinds() {
    let mut source = ByteSource::new(vec![10, 20, 30, 40]);
    assert_eq!(source.remaining(), 4);
    assert_eq!(source.read_exact(2), Some(vec![10, 20]));
    assert_eq!(source.remaining(), 2);
    source.rewind();
    assert_eq!(source.remaining(), 4);
    assert_eq!(source.into_remaining(), vec![10, 20, 30, 40]);
}

#[test]
fn byte_source_short_read_fails_without_moving() {
    let mut source = ByteSource::new(vec![1, 2, 3]);
    assert_eq!(source.read_exact(5), None);
    assert_eq!(source.remaining(), 3);
    assert_eq!(source.read_exact(3), Some(vec![1, 2, 3]));
}

#[test]
fn error_descriptions_are_distinct() {
    assert_eq!(
        PipelineError::UnsupportedFormat.describe(),
        "Unsupported file format"
    );
    assert_eq!(PipelineError::UnrecognizedFormat.describe(), "Unknown file type");
    assert_ne!(
        PipelineError::UnsupportedFormat.describe(),
        PipelineError::Decode.describe()
    );
}

#[test]
fn only_uid_zero_is_privileged() {
    assert!(has_root_privileges(0));
    assert!(!has_root_privileges(1000));
}
