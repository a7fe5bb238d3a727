//! Detection of compressed byte streams and transparent decompression.
//!
//! The crate looks at the leading magic bytes of a byte source, picks the
//! matching codec, and hands back the decompressed bytes; input whose format
//! is not recognized passes through unchanged.

use vstd::prelude::*;

pub mod codec;
pub mod config;
pub mod format;
pub mod parallel;
pub mod source;

verus! {

pub use crate::format::CompressionFormat;

use crate::codec::decode_outcome;
use crate::codec::decompress_with;
use crate::config::spec_all_enabled;
use crate::config::CodecConfig;
use crate::format::match_magic;
use crate::format::sniff_spec;
use crate::source::MemSource;

/// What the top-level entry point must yield for a source holding `s`:
/// the input unchanged when no magic prefix is recognized, else the
/// decoded stream of the sniffed format under the default configuration.
pub open spec fn auto_outcome(s: Seq<u8>) -> Option<Seq<u8>> {
    match sniff_spec(s) {
        None => Some(s),
        Some(f) => decode_outcome(spec_all_enabled(), f, s),
    }
}

/// Guess the compression format
///
/// The format is determined by looking at the leading magic bytes of the
/// buffered window, which is peeked, never consumed: the source's read
/// position after the call is byte-for-byte what it was before. Returns
/// `None` if the magic bytes are not recognized or fewer bytes are
/// buffered than any prefix needs.
pub fn guess_compression_format(r: &mut MemSource) -> (format: Option<CompressionFormat>)
    requires
        old(r).wf(),
    ensures
        *final(r) == *old(r),
        format == sniff_spec(old(r).remaining()),
{
    let window = r.fill_buf();
    match_magic(window)
}

/// Decompress assuming the given format
///
/// Runs under the default configuration: every codec enabled, with
/// lz4_flex as the lz4 backend.
pub fn decompress_as(input: Vec<u8>, format: CompressionFormat) -> (r: Result<
    Vec<u8>,
    std::io::Error,
>)
    ensures
        r is Ok <==> decode_outcome(spec_all_enabled(), format, input@) is Some,
        r is Ok ==> r->Ok_0@ == decode_outcome(spec_all_enabled(), format, input@)->0,
{
    let config = CodecConfig::all_enabled();
    decompress_with(&config, input, format)
}

/// Automatic decompression
///
/// The single top-level entry point: sniff the leading magic bytes once,
/// and decompress in the recognized format; input that is unrecognized,
/// or too short to classify, is never an error — it is returned verbatim,
/// byte-for-byte.
pub fn auto_decompress(input: Vec<u8>) -> (r: Result<Vec<u8>, std::io::Error>)
    ensures
        r is Ok <==> auto_outcome(input@) is Some,
        r is Ok ==> r->Ok_0@ == auto_outcome(input@)->0,
        sniff_spec(input@) is None ==> r is Ok && r->Ok_0@ == input@,
{
    let mut source = MemSource::new(input);
    let format = guess_compression_format(&mut source);
    let input = source.into_inner();
    match format {
        None => Ok(input),
        Some(f) => decompress_as(input, f),
    }
}

} // verus!
