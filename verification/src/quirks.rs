use vstd::prelude::*;

verus! {

/// The query-string artifact that some download mirrors append to the
/// stored filename.
pub open spec fn quirk_pattern() -> Seq<u8> {
    seq![0x3fu8, 0x76u8, 0x69u8, 0x61u8, 0x73u8, 0x66u8, 0x3du8, 0x31u8]
}

/// The pattern occurs in `s` beginning at index `i`.
pub open spec fn quirk_at(s: Seq<u8>, i: int) -> bool {
    &&& 0 <= i
    &&& i + 8 <= s.len()
    &&& s.subrange(i, i + 8) == quirk_pattern()
}

/// `s` from index `i` on with every occurrence of the pattern removed,
/// scanning left to right without overlap.
pub open spec fn strip_quirks_from(s: Seq<u8>, i: int) -> Seq<u8>
    decreases s.len() - i,
{
    if !(0 <= i < s.len()) {
        Seq::empty()
    } else if quirk_at(s, i) {
        strip_quirks_from(s, i + 8)
    } else {
        seq![s[i]] + strip_quirks_from(s, i + 1)
    }
}

/// Decide whether the pattern occurs in `name` at index `i`.
fn quirk_matches_at(name: &[u8], i: usize) -> (r: bool)
    requires
        i <= name.len(),
    ensures
        r == quirk_at(name@, i as int),
{
    if name.len() - i < 8 {
        return false;
    }
    let r = name[i] == 0x3f && name[i + 1] == 0x76 && name[i + 2] == 0x69 && name[i + 3] == 0x61
        && name[i + 4] == 0x73 && name[i + 5] == 0x66 && name[i + 6] == 0x3d && name[i + 7] == 0x31;
    proof {
        if r {
            assert(name@.subrange(i as int, i + 8) =~= quirk_pattern());
        } else {
            assert(name@.subrange(i as int, i + 8) != quirk_pattern()) by {
                if name@.subrange(i as int, i + 8) == quirk_pattern() {
                    assert(name@[i + 0] == quirk_pattern()[0]);
                    assert(name@[i + 1] == quirk_pattern()[1]);
                    assert(name@[i + 2] == quirk_pattern()[2]);
                    assert(name@[i + 3] == quirk_pattern()[3]);
                    assert(name@[i + 4] == quirk_pattern()[4]);
                    assert(name@[i + 5] == quirk_pattern()[5]);
                    assert(name@[i + 6] == quirk_pattern()[6]);
                    assert(name@[i + 7] == quirk_pattern()[7]);
                }
            }
        }
    }
    r
}

/// The new name the quirk fixer renames a file to: where the stored
/// filename contains the query-string artifact, every occurrence of it
/// is removed; a name without it is left alone.
pub fn fix_quirk_name(name: &[u8]) -> (r: Option<Vec<u8>>)
    ensures
        r is Some <==> exists|i: int| quirk_at(name@, i),
        r matches Some(v) ==> v@ == strip_quirks_from(name@, 0),
{
    let mut out: Vec<u8> = Vec::new();
    let mut found = false;
    let mut i: usize = 0;
    while i < name.len()
        invariant
            i <= name.len(),
            found ==> exists|k: int| quirk_at(name@, k),
            !found ==> forall|k: int| k < i ==> !quirk_at(name@, k),
            strip_quirks_from(name@, 0) == out@ + strip_quirks_from(name@, i as int),
        decreases name.len() - i,
    {
        if quirk_matches_at(name, i) {
            proof {
                assert(quirk_at(name@, i as int));
            }
            found = true;
            i += 8;
        } else {
            let ghost prev = out@;
            out.push(name[i]);
            proof {
                assert(out@ + strip_quirks_from(name@, i + 1) == prev + (seq![name@[i as int]]
                    + strip_quirks_from(name@, i + 1))) by {
                    assert(out@ + strip_quirks_from(name@, i + 1) =~= prev + (seq![
                        name@[i as int],
                    ] + strip_quirks_from(name@, i + 1)));
                }
            }
            i += 1;
        }
    }
    if found {
        Some(out)
    } else {
        proof {
            assert(forall|k: int| !quirk_at(name@, k));
        }
        None
    }
}

} // verus!
