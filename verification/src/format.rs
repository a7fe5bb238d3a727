//! The closed set of recognized compression formats and the magic-byte
//! table that identifies them.

use vstd::prelude::*;

verus! {

/// Compression format
#[derive(Copy, Clone, Debug, PartialEq, Eq, Structural, PartialOrd, Ord, Hash)]
pub enum CompressionFormat {
    /// The Deflate format (gzip framing)
    Deflate,
    /// The bzip2 format
    Bzip2,
    /// The LZ4 frame format
    Lz4,
    /// The Zstandard format
    Zstd,
}

/// The fixed magic prefix that identifies each format.
pub open spec fn magic_of(f: CompressionFormat) -> Seq<u8> {
    match f {
        CompressionFormat::Bzip2 => seq![0x42u8, 0x5au8, 0x68u8],
        CompressionFormat::Deflate => seq![0x1fu8, 0x8bu8],
        CompressionFormat::Lz4 => seq![0x04u8, 0x22u8, 0x4du8, 0x18u8],
        CompressionFormat::Zstd => seq![0x28u8, 0xb5u8, 0x2fu8, 0xfdu8],
    }
}

/// Whether the buffered window `s` starts with the magic prefix of `f`.
pub open spec fn has_magic(s: Seq<u8>, f: CompressionFormat) -> bool {
    &&& s.len() >= magic_of(f).len()
    &&& s.subrange(0, magic_of(f).len() as int) == magic_of(f)
}

/// The sniffing verdict for a buffered window: the unique format whose
/// magic prefix the window carries, or `None` when no prefix matches or
/// too few bytes are buffered to match any.
pub open spec fn sniff_spec(s: Seq<u8>) -> Option<CompressionFormat> {
    if has_magic(s, CompressionFormat::Bzip2) {
        Some(CompressionFormat::Bzip2)
    } else if has_magic(s, CompressionFormat::Deflate) {
        Some(CompressionFormat::Deflate)
    } else if has_magic(s, CompressionFormat::Lz4) {
        Some(CompressionFormat::Lz4)
    } else if has_magic(s, CompressionFormat::Zstd) {
        Some(CompressionFormat::Zstd)
    } else {
        None
    }
}

/// The magic prefixes are pairwise disjoint: no window carries the prefix
/// of two distinct formats, so the match order in `sniff_spec` is
/// immaterial and sniffing needs no backtracking.
pub proof fn lemma_magic_disjoint(s: Seq<u8>, f1: CompressionFormat, f2: CompressionFormat)
    requires
        has_magic(s, f1),
        has_magic(s, f2),
    ensures
        f1 == f2,
{
    if f1 != f2 {
        let m1 = magic_of(f1);
        let m2 = magic_of(f2);
        assert(s.subrange(0, m1.len() as int)[0] == s[0]);
        assert(s.subrange(0, m2.len() as int)[0] == s[0]);
        assert(m1[0] == m2[0]);
        assert(false);
    }
}

/// Whichever format `sniff_spec` reports, the window really carries its
/// magic prefix; and a window that carries some prefix is never reported
/// as unknown.
pub proof fn lemma_sniff_sound_and_complete(s: Seq<u8>)
    ensures
        sniff_spec(s) matches Some(f) ==> has_magic(s, f),
        forall|f: CompressionFormat| has_magic(s, f) ==> sniff_spec(s) == Some(f),
{
    assert forall|f: CompressionFormat| has_magic(s, f) implies sniff_spec(s) == Some(f) by {
        let g = sniff_spec(s)->Some_0;
        lemma_magic_disjoint(s, f, g);
    }
}

/// Match the buffered window against the magic table.
pub fn match_magic(w: &[u8]) -> (r: Option<CompressionFormat>)
    ensures
        r == sniff_spec(w@),
{
    let n = w.len();
    if n >= 3 && w[0] == 0x42 && w[1] == 0x5a && w[2] == 0x68 {
        proof {
            assert(w@.subrange(0, 3) =~= magic_of(CompressionFormat::Bzip2));
        }
        Some(CompressionFormat::Bzip2)
    } else if n >= 2 && w[0] == 0x1f && w[1] == 0x8b {
        proof {
            assert(w@.subrange(0, 2) =~= magic_of(CompressionFormat::Deflate));
            assert(!has_magic(w@, CompressionFormat::Bzip2));
        }
        Some(CompressionFormat::Deflate)
    } else if n >= 4 && w[0] == 0x04 && w[1] == 0x22 && w[2] == 0x4d && w[3] == 0x18 {
        proof {
            assert(w@.subrange(0, 4) =~= magic_of(CompressionFormat::Lz4));
            assert(!has_magic(w@, CompressionFormat::Bzip2));
            assert(!has_magic(w@, CompressionFormat::Deflate));
        }
        Some(CompressionFormat::Lz4)
    } else if n >= 4 && w[0] == 0x28 && w[1] == 0xb5 && w[2] == 0x2f && w[3] == 0xfd {
        proof {
            assert(w@.subrange(0, 4) =~= magic_of(CompressionFormat::Zstd));
            assert(!has_magic(w@, CompressionFormat::Bzip2));
            assert(!has_magic(w@, CompressionFormat::Deflate));
            assert(!has_magic(w@, CompressionFormat::Lz4));
        }
        Some(CompressionFormat::Zstd)
    } else {
        proof {
            assert forall|f: CompressionFormat| !has_magic(w@, f) by {
                if has_magic(w@, f) {
                    let m = magic_of(f);
                    assert(w@.subrange(0, m.len() as int)[0] == w@[0]);
                    if m.len() >= 2 {
                        assert(w@.subrange(0, m.len() as int)[1] == w@[1]);
                    }
                    if m.len() >= 3 {
                        assert(w@.subrange(0, m.len() as int)[2] == w@[2]);
                    }
                    if m.len() >= 4 {
                        assert(w@.subrange(0, m.len() as int)[3] == w@[3]);
                    }
                }
            }
        }
        None
    }
}

} // verus!
