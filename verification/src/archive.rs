use vstd::prelude::*;

verus! {

/// One entry of a tar archive, reduced to plain values: its path inside
/// the archive, whether it is a directory, and its file contents (empty
/// for directories).
#[derive(Debug)]
pub struct TarEntry {
    pub path: Vec<u8>,
    pub is_dir: bool,
    pub data: Vec<u8>,
}

impl TarEntry {
    /// The entry as a triple of mathematical values.
    pub open spec fn view(&self) -> (Seq<u8>, bool, Seq<u8>) {
        (self.path@, self.is_dir, self.data@)
    }
}

/// A sequence of entries as a sequence of triples.
pub open spec fn entries_view(es: Seq<TarEntry>) -> Seq<(Seq<u8>, bool, Seq<u8>)> {
    es.map_values(|e: TarEntry| e.view())
}

/// What parsing a byte stream as a tar archive yields: the entries in
/// archive order, each a (path, is-directory, contents) triple, or
/// nothing where the stream is not a well-formed tar archive. The
/// result depends on the input bytes alone.
pub uninterp spec fn tar_archive_of(data: Seq<u8>) -> Option<Seq<(Seq<u8>, bool, Seq<u8>)>>;

/// Relies on tar::Archive: iterating `entries()` yields each entry's
/// header path, entry type and contents, a function of the archive
/// bytes alone, and fails exactly where the stream is malformed.
#[verifier::external_body]
pub(crate) fn tar_list(data: &[u8]) -> (r: Option<Vec<TarEntry>>)
    ensures
        r is Some <==> tar_archive_of(data@) is Some,
        r matches Some(v) ==> tar_archive_of(data@) == Some(entries_view(v@)),
{
    let mut archive = tar::Archive::new(data);
    let mut out: Vec<TarEntry> = Vec::new();
    let entries = match archive.entries() { Ok(e) => e, Err(_) => return None };
    for entry in entries {
        let mut entry = match entry { Ok(e) => e, Err(_) => return None };
        let path = entry.path_bytes().to_vec();
        let is_dir = entry.header().entry_type().is_dir();
        let mut content: Vec<u8> = Vec::new();
        if std::io::Read::read_to_end(&mut entry, &mut content).is_err() { return None }
        out.push(TarEntry { path, is_dir, data: content });
    }
    Some(out)
}

/// A ".." path component begins at index `i` of `p`.
pub open spec fn dotdot_at(p: Seq<u8>, i: int) -> bool {
    &&& 0 <= i
    &&& i + 2 <= p.len()
    &&& p[i] == 0x2e
    &&& p[i + 1] == 0x2e
    &&& (i == 0 || p[i - 1] == 0x2f)
    &&& (i + 2 == p.len() || p[i + 2] == 0x2f)
}

/// A path is safe to materialize under a destination directory: it is
/// not absolute and no component of it is "..", so it cannot escape the
/// destination.
pub open spec fn path_safe(p: Seq<u8>) -> bool {
    &&& !(p.len() > 0 && p[0] == 0x2f)
    &&& forall|i: int| !dotdot_at(p, i)
}

/// Decide whether an entry path is safe to materialize.
pub fn entry_path_is_safe(p: &[u8]) -> (r: bool)
    ensures
        r == path_safe(p@),
{
    if p.len() > 0 && p[0] == 0x2f {
        return false;
    }
    let mut i: usize = 0;
    while i < p.len() && i + 1 < p.len()
        invariant
            forall|j: int| j < i ==> !dotdot_at(p@, j),
            i <= p.len(),
        decreases p.len() - i,
    {
        let here = p[i] == 0x2e && p[i + 1] == 0x2e && (i == 0 || p[i - 1] == 0x2f) && (i + 2
            == p.len() || p[i + 2] == 0x2f);
        if here {
            assert(dotdot_at(p@, i as int));
            return false;
        }
        i += 1;
    }
    assert(forall|j: int| j >= i ==> !dotdot_at(p@, j));
    true
}

/// Every entry path in the sequence is safe.
pub open spec fn all_paths_safe(es: Seq<TarEntry>) -> bool {
    forall|k: int| 0 <= k < es.len() ==> path_safe(es[k].path@)
}

/// Every path of a sequence of entry triples is safe.
pub open spec fn all_triple_paths_safe(es: Seq<(Seq<u8>, bool, Seq<u8>)>) -> bool {
    forall|k: int| 0 <= k < es.len() ==> path_safe(es[k].0)
}

/// Path safety of a sequence of entries agrees with path safety of its
/// view as triples.
pub proof fn lemma_entries_view_safe(es: Seq<TarEntry>)
    ensures
        all_paths_safe(es) == all_triple_paths_safe(entries_view(es)),
{
    if all_paths_safe(es) {
        assert forall|k: int| 0 <= k < entries_view(es).len() implies path_safe(
            entries_view(es)[k].0,
        ) by {
            assert(entries_view(es)[k] == es[k].view());
        }
    }
    if all_triple_paths_safe(entries_view(es)) {
        assert forall|k: int| 0 <= k < es.len() implies path_safe(es[k].path@) by {
            assert(entries_view(es)[k] == es[k].view());
        }
    }
}

/// Decide whether every entry of a parsed archive is safe to
/// materialize.
pub fn entries_are_safe(entries: &Vec<TarEntry>) -> (r: bool)
    ensures
        r == all_paths_safe(entries@),
{
    let mut k: usize = 0;
    while k < entries.len()
        invariant
            k <= entries.len(),
            forall|j: int| 0 <= j < k ==> path_safe(entries@[j].path@),
        decreases entries.len() - k,
    {
        if !entry_path_is_safe(entries[k].path.as_slice()) {
            assert(!path_safe(entries@[k as int].path@));
            return false;
        }
        k += 1;
    }
    true
}

} // verus!
