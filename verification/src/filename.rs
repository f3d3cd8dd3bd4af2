use vstd::prelude::*;
use crate::bytes::copy_bytes;
use crate::bytes::copy_range;

verus! {

/// The ASCII whitespace bytes that surrounding-whitespace trimming
/// removes.
pub open spec fn is_ascii_ws(b: u8) -> bool {
    b == 0x20 || b == 0x09 || b == 0x0a || b == 0x0d || b == 0x0b || b == 0x0c
}

/// The first index at or after `i` holding a byte other than `stop`,
/// or the length if none follows.
pub open spec fn run_end(s: Seq<u8>, stop: u8, i: int) -> int
    decreases s.len() - i,
{
    if 0 <= i < s.len() && s[i] == stop {
        run_end(s, stop, i + 1)
    } else {
        i
    }
}

/// The first index at or after `i` holding a byte that is not ASCII
/// whitespace, or the length if none follows.
pub open spec fn ws_start(s: Seq<u8>, i: int) -> int
    decreases s.len() - i,
{
    if 0 <= i < s.len() && is_ascii_ws(s[i]) {
        ws_start(s, i + 1)
    } else {
        i
    }
}

/// One past the last index before `j` holding a byte that is not ASCII
/// whitespace, or zero if none precedes.
pub open spec fn ws_end(s: Seq<u8>, j: int) -> int
    decreases j,
{
    if 0 < j <= s.len() && is_ascii_ws(s[j - 1]) {
        ws_end(s, j - 1)
    } else {
        j
    }
}

/// `s` with leading and trailing ASCII whitespace removed.
pub open spec fn trim_spec(s: Seq<u8>) -> Seq<u8> {
    let lo = ws_start(s, 0);
    let hi = ws_end(s, s.len() as int);
    if lo <= hi {
        s.subrange(lo, hi)
    } else {
        Seq::empty()
    }
}

/// One past the last index before `j` holding a byte other than `stop`,
/// or zero if none precedes.
pub open spec fn run_start(s: Seq<u8>, stop: u8, j: int) -> int
    decreases j,
{
    if 0 < j <= s.len() && s[j - 1] == stop {
        run_start(s, stop, j - 1)
    } else {
        j
    }
}

/// `s` with every leading and trailing double-quote byte removed.
pub open spec fn trim_quotes_spec(s: Seq<u8>) -> Seq<u8> {
    let lo = run_end(s, 0x22, 0);
    let hi = run_start(s, 0x22, s.len() as int);
    if lo <= hi {
        s.subrange(lo, hi)
    } else {
        Seq::empty()
    }
}

/// The index of the first occurrence of `b` at or after `i`.
pub open spec fn find_from(s: Seq<u8>, b: u8, i: int) -> Option<int>
    decreases s.len() - i,
{
    if !(0 <= i < s.len()) {
        None
    } else if s[i] == b {
        Some(i)
    } else {
        find_from(s, b, i + 1)
    }
}

/// The index of the last occurrence of `b` before `j`.
pub open spec fn rfind_before(s: Seq<u8>, b: u8, j: int) -> Option<int>
    decreases j,
{
    if !(0 < j <= s.len()) {
        None
    } else if s[j - 1] == b {
        Some(j - 1)
    } else {
        rfind_before(s, b, j - 1)
    }
}

/// A found index lies between the start of the search and the length.
pub proof fn lemma_find_from_bounds(s: Seq<u8>, b: u8, i: int)
    requires
        0 <= i <= s.len(),
    ensures
        find_from(s, b, i) matches Some(j) ==> i <= j < s.len(),
    decreases s.len() - i,
{
    if i < s.len() && s[i] != b {
        lemma_find_from_bounds(s, b, i + 1);
    }
}

/// An ASCII upper-case letter lowered; any other byte unchanged.
pub open spec fn to_lower(b: u8) -> u8 {
    if 0x41 <= b && b <= 0x5a {
        (b + 0x20) as u8
    } else {
        b
    }
}

/// The key bytes spell "filename", ASCII case ignored.
pub open spec fn is_filename_key(k: Seq<u8>) -> bool {
    &&& k.len() == 8
    &&& to_lower(k[0]) == 0x66
    &&& to_lower(k[1]) == 0x69
    &&& to_lower(k[2]) == 0x6c
    &&& to_lower(k[3]) == 0x65
    &&& to_lower(k[4]) == 0x6e
    &&& to_lower(k[5]) == 0x61
    &&& to_lower(k[6]) == 0x6d
    &&& to_lower(k[7]) == 0x65
}

/// What one `;`-separated parameter of a Content-Disposition header
/// contributes: trimmed of surrounding whitespace and split at its
/// first `=`, a key spelling "filename" (case ignored) yields the value
/// with surrounding quotes removed; anything else yields nothing.
pub open spec fn param_filename(p: Seq<u8>) -> Option<Seq<u8>> {
    let t = trim_spec(p);
    match find_from(t, 0x3d, 0) {
        Option::None => None,
        Option::Some(e) => {
            if is_filename_key(t.subrange(0, e)) {
                Some(trim_quotes_spec(t.subrange(e + 1, t.len() as int)))
            } else {
                None
            }
        },
    }
}

/// The filename carried by a Content-Disposition header, scanning its
/// `;`-separated parameters from `i` on: the first parameter whose key
/// is "filename" decides, and its quote-stripped value is the name.
pub open spec fn cd_filename_from(s: Seq<u8>, i: int) -> Option<Seq<u8>>
    decreases s.len() - i,
    when 0 <= i <= s.len()
    via cd_filename_from_decreases
{
    let j = match find_from(s, 0x3b, i) {
        Option::Some(j) => j,
        Option::None => s.len() as int,
    };
    match param_filename(s.subrange(i, j)) {
        Option::Some(v) => Some(v),
        Option::None => if j < s.len() {
            cd_filename_from(s, j + 1)
        } else {
            None
        },
    }
}

#[via_fn]
proof fn cd_filename_from_decreases(s: Seq<u8>, i: int) {
    lemma_find_from_bounds(s, 0x3b, i);
}

/// The last `/`-separated segment of a URL: everything after the final
/// slash, or the whole string when it holds none.
pub open spec fn url_last_segment_spec(url: Seq<u8>) -> Seq<u8> {
    match rfind_before(url, 0x2f, url.len() as int) {
        Option::Some(i) => url.subrange(i + 1, url.len() as int),
        Option::None => url,
    }
}

/// The filename the fetcher stores the download under: the name given
/// by the Content-Disposition header when one is present and carries a
/// "filename" parameter, else the URL's last path segment.
pub open spec fn derive_filename_spec(cd: Option<Seq<u8>>, url: Seq<u8>) -> Seq<u8> {
    match cd {
        Option::Some(s) => match cd_filename_from(s, 0) {
            Option::Some(v) => v,
            Option::None => url_last_segment_spec(url),
        },
        Option::None => url_last_segment_spec(url),
    }
}

/// Decide whether a byte is ASCII whitespace.
fn is_ws(b: u8) -> (r: bool)
    ensures
        r == is_ascii_ws(b),
{
    b == 0x20 || b == 0x09 || b == 0x0a || b == 0x0d || b == 0x0b || b == 0x0c
}

/// Lower an ASCII upper-case letter; hand any other byte back.
fn lower_byte(b: u8) -> (r: u8)
    ensures
        r == to_lower(b),
{
    if b >= 0x41 && b <= 0x5a {
        b + 0x20
    } else {
        b
    }
}

/// Find the first occurrence of `b` at or after `start`.
pub fn find_byte_from(s: &[u8], b: u8, start: usize) -> (r: Option<usize>)
    requires
        start <= s.len(),
    ensures
        r matches Some(j) ==> find_from(s@, b, start as int) == Some(j as int) && start <= j
            < s.len(),
        r is None ==> find_from(s@, b, start as int) is None,
{
    let mut i: usize = start;
    while i < s.len()
        invariant
            start <= i <= s.len(),
            find_from(s@, b, start as int) == find_from(s@, b, i as int),
        decreases s.len() - i,
    {
        if s[i] == b {
            return Some(i);
        }
        i += 1;
    }
    None
}

/// Find the last occurrence of `b` in `s`.
pub fn rfind_byte(s: &[u8], b: u8) -> (r: Option<usize>)
    ensures
        r matches Some(j) ==> rfind_before(s@, b, s@.len() as int) == Some(j as int) && j
            < s.len(),
        r is None ==> rfind_before(s@, b, s@.len() as int) is None,
{
    let mut j: usize = s.len();
    while j > 0
        invariant
            j <= s.len(),
            rfind_before(s@, b, s@.len() as int) == rfind_before(s@, b, j as int),
        decreases j,
    {
        if s[j - 1] == b {
            return Some(j - 1);
        }
        j -= 1;
    }
    None
}

/// Trim leading and trailing ASCII whitespace from `s`.
pub fn trim(s: &[u8]) -> (v: Vec<u8>)
    ensures
        v@ == trim_spec(s@),
{
    let mut lo: usize = 0;
    while lo < s.len() && is_ws(s[lo])
        invariant
            lo <= s.len(),
            ws_start(s@, 0) == ws_start(s@, lo as int),
        decreases s.len() - lo,
    {
        lo += 1;
    }
    let mut hi: usize = s.len();
    while hi > 0 && is_ws(s[hi - 1])
        invariant
            hi <= s.len(),
            ws_end(s@, s@.len() as int) == ws_end(s@, hi as int),
        decreases hi,
    {
        hi -= 1;
    }
    if lo <= hi {
        copy_range(s, lo, hi)
    } else {
        Vec::new()
    }
}

/// Trim leading and trailing double quotes from `s`.
pub fn trim_quotes(s: &[u8]) -> (v: Vec<u8>)
    ensures
        v@ == trim_quotes_spec(s@),
{
    let mut lo: usize = 0;
    while lo < s.len() && s[lo] == 0x22
        invariant
            lo <= s.len(),
            run_end(s@, 0x22, 0) == run_end(s@, 0x22, lo as int),
        decreases s.len() - lo,
    {
        lo += 1;
    }
    let mut hi: usize = s.len();
    while hi > 0 && s[hi - 1] == 0x22
        invariant
            hi <= s.len(),
            run_start(s@, 0x22, s@.len() as int) == run_start(s@, 0x22, hi as int),
        decreases hi,
    {
        hi -= 1;
    }
    if lo <= hi {
        copy_range(s, lo, hi)
    } else {
        Vec::new()
    }
}

/// Decide whether the key bytes spell "filename", ASCII case ignored.
fn key_is_filename(k: &[u8]) -> (r: bool)
    ensures
        r == is_filename_key(k@),
{
    if k.len() != 8 {
        return false;
    }
    lower_byte(k[0]) == 0x66 && lower_byte(k[1]) == 0x69 && lower_byte(k[2]) == 0x6c && lower_byte(
        k[3],
    ) == 0x65 && lower_byte(k[4]) == 0x6e && lower_byte(k[5]) == 0x61 && lower_byte(k[6]) == 0x6d
        && lower_byte(k[7]) == 0x65
}

/// The filename one parameter of the header contributes, if any.
fn param_filename_value(p: &[u8]) -> (r: Option<Vec<u8>>)
    ensures
        r matches Some(v) ==> param_filename(p@) == Some(v@),
        r is None ==> param_filename(p@) is None,
{
    let t = trim(p);
    match find_byte_from(t.as_slice(), 0x3d, 0) {
        None => None,
        Some(e) => {
            let key = copy_range(t.as_slice(), 0, e);
            if key_is_filename(key.as_slice()) {
                let value = copy_range(t.as_slice(), e + 1, t.len());
                Some(trim_quotes(value.as_slice()))
            } else {
                None
            }
        },
    }
}

/// The filename carried by a Content-Disposition header, if any of its
/// parameters names one.
pub fn content_disposition_filename(s: &[u8]) -> (r: Option<Vec<u8>>)
    ensures
        r matches Some(v) ==> cd_filename_from(s@, 0) == Some(v@),
        r is None ==> cd_filename_from(s@, 0) is None,
{
    let mut i: usize = 0;
    loop
        invariant
            i <= s.len(),
            cd_filename_from(s@, 0) == cd_filename_from(s@, i as int),
        decreases s.len() - i,
    {
        let j = match find_byte_from(s, 0x3b, i) {
            Some(j) => j,
            None => s.len(),
        };
        let param = copy_range(s, i, j);
        match param_filename_value(param.as_slice()) {
            Some(v) => {
                assert(cd_filename_from(s@, i as int) == Some(v@));
                return Some(v);
            },
            None => {
                if j < s.len() {
                    assert(cd_filename_from(s@, i as int) == cd_filename_from(s@, j + 1));
                    i = j + 1;
                } else {
                    assert(cd_filename_from(s@, i as int) is None);
                    return None;
                }
            },
        }
    }
}

/// The URL's last path segment.
pub fn url_last_segment(url: &[u8]) -> (v: Vec<u8>)
    ensures
        v@ == url_last_segment_spec(url@),
{
    match rfind_byte(url, 0x2f) {
        Some(i) => copy_range(url, i + 1, url.len()),
        None => copy_bytes(url),
    }
}

/// Derive the filename to store a download under, from the optional
/// Content-Disposition header and the URL it was fetched from.
pub fn derive_filename(cd: Option<&[u8]>, url: &[u8]) -> (v: Vec<u8>)
    ensures
        cd matches Some(s) ==> v@ == derive_filename_spec(Some(s@), url@),
        cd is None ==> v@ == derive_filename_spec(None, url@),
{
    match cd {
        Some(s) => match content_disposition_filename(s) {
            Some(v) => v,
            None => url_last_segment(url),
        },
        None => url_last_segment(url),
    }
}

} // verus!
