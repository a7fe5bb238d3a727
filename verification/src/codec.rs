//! The codec backends, each behind one trusted wrapper.
//!
//! Decompression itself is delegated to outside codec crates. What each
//! backend computes is a function of the compressed bytes alone, so each
//! gets an uninterpreted name; the wrappers promise only that the call
//! returns that named result, and every contract above them speaks of the
//! names exactly.

use vstd::prelude::*;

use crate::config::CodecConfig;
use crate::format::CompressionFormat;

verus! {

#[verifier::external_type_specification]
#[verifier::external_body]
pub struct ExIoError(std::io::Error);

/// What bzip2 decompression of a byte stream yields: the decoded bytes,
/// or `None` when the stream is not a well-formed bzip2 stream.
pub uninterp spec fn bzip2_decoded(s: Seq<u8>) -> Option<Seq<u8>>;

/// What gzip/Deflate decompression of a byte stream yields.
pub uninterp spec fn gzip_decoded(s: Seq<u8>) -> Option<Seq<u8>>;

/// What lz4-frame decompression by the lz4 backend yields.
pub uninterp spec fn lz4_decoded(s: Seq<u8>) -> Option<Seq<u8>>;

/// What lz4-frame decompression by the lz4_flex backend yields.
pub uninterp spec fn lz4_flex_decoded(s: Seq<u8>) -> Option<Seq<u8>>;

/// What Zstandard decompression of a byte stream yields.
pub uninterp spec fn zstd_decoded(s: Seq<u8>) -> Option<Seq<u8>>;

/// Relies on bzip2::read::BzDecoder: reads the whole bzip2 stream in
/// `input` and yields the decoded bytes, a pure function of `input`;
/// a malformed stream surfaces as the first read error.
#[verifier::external_body]
fn bzip2_decompress(input: &[u8]) -> (r: Result<Vec<u8>, std::io::Error>)
    ensures
        r is Ok <==> bzip2_decoded(input@) is Some,
        r is Ok ==> r->Ok_0@ == bzip2_decoded(input@)->0,
{
    let mut decoder = bzip2::read::BzDecoder::new(input);
    let mut out = Vec::new();
    match std::io::Read::read_to_end(&mut decoder, &mut out) {
        Ok(_) => Ok(out),
        Err(e) => Err(e),
    }
}

/// Relies on flate2::bufread::GzDecoder: reads the whole gzip stream in
/// `input` and yields the decoded bytes, a pure function of `input`;
/// a malformed stream surfaces as the first read error.
#[verifier::external_body]
fn gzip_decompress(input: &[u8]) -> (r: Result<Vec<u8>, std::io::Error>)
    ensures
        r is Ok <==> gzip_decoded(input@) is Some,
        r is Ok ==> r->Ok_0@ == gzip_decoded(input@)->0,
{
    let mut decoder = flate2::bufread::GzDecoder::new(input);
    let mut out = Vec::new();
    match std::io::Read::read_to_end(&mut decoder, &mut out) {
        Ok(_) => Ok(out),
        Err(e) => Err(e),
    }
}

/// Relies on lz4::Decoder: reads the whole lz4 frame in `input` and
/// yields the decoded bytes, a pure function of `input`; a malformed
/// frame surfaces as a construction or read error.
#[verifier::external_body]
fn lz4_decompress(input: &[u8]) -> (r: Result<Vec<u8>, std::io::Error>)
    ensures
        r is Ok <==> lz4_decoded(input@) is Some,
        r is Ok ==> r->Ok_0@ == lz4_decoded(input@)->0,
{
    let mut decoder = match lz4::Decoder::new(input) {
        Ok(d) => d,
        Err(e) => return Err(e),
    };
    let mut out = Vec::new();
    match std::io::Read::read_to_end(&mut decoder, &mut out) {
        Ok(_) => Ok(out),
        Err(e) => Err(e),
    }
}

/// Relies on lz4_flex::frame::FrameDecoder: reads the whole lz4 frame in
/// `input` and yields the decoded bytes, a pure function of `input`;
/// a malformed frame surfaces as the first read error.
#[verifier::external_body]
fn lz4_flex_decompress(input: &[u8]) -> (r: Result<Vec<u8>, std::io::Error>)
    ensures
        r is Ok <==> lz4_flex_decoded(input@) is Some,
        r is Ok ==> r->Ok_0@ == lz4_flex_decoded(input@)->0,
{
    let mut decoder = lz4_flex::frame::FrameDecoder::new(input);
    let mut out = Vec::new();
    match std::io::Read::read_to_end(&mut decoder, &mut out) {
        Ok(_) => Ok(out),
        Err(e) => Err(e),
    }
}

/// Relies on zstd::stream::read::Decoder: reads the whole Zstandard
/// stream in `input` and yields the decoded bytes, a pure function of
/// `input`; a malformed stream surfaces as a construction or read error.
#[verifier::external_body]
fn zstd_decompress(input: &[u8]) -> (r: Result<Vec<u8>, std::io::Error>)
    ensures
        r is Ok <==> zstd_decoded(input@) is Some,
        r is Ok ==> r->Ok_0@ == zstd_decoded(input@)->0,
{
    let mut decoder = match zstd::stream::read::Decoder::new(input) {
        Ok(d) => d,
        Err(e) => return Err(e),
    };
    let mut out = Vec::new();
    match std::io::Read::read_to_end(&mut decoder, &mut out) {
        Ok(_) => Ok(out),
        Err(e) => Err(e),
    }
}

/// What dispatching `input` of format `f` under configuration `c` must
/// yield: the named result of the enabled backend for `f`, or the input
/// unchanged when no backend for `f` is enabled.
pub open spec fn decode_outcome(c: CodecConfig, f: CompressionFormat, s: Seq<u8>) -> Option<
    Seq<u8>,
> {
    match f {
        CompressionFormat::Bzip2 => if c.bzip2 {
            bzip2_decoded(s)
        } else {
            Some(s)
        },
        CompressionFormat::Deflate => if c.deflate {
            gzip_decoded(s)
        } else {
            Some(s)
        },
        CompressionFormat::Lz4 => if c.lz4 {
            lz4_decoded(s)
        } else if c.lz4_flex {
            lz4_flex_decoded(s)
        } else {
            Some(s)
        },
        CompressionFormat::Zstd => if c.zstd {
            zstd_decoded(s)
        } else {
            Some(s)
        },
    }
}

/// Decompress `input` as `format`, using the backends `config` enables.
///
/// A format whose backend is disabled passes the input through unchanged;
/// it is never an error. A malformed stream of an enabled format is the
/// one error source.
pub fn decompress_with(config: &CodecConfig, input: Vec<u8>, format: CompressionFormat) -> (r:
    Result<Vec<u8>, std::io::Error>)
    requires
        config.valid(),
    ensures
        r is Ok <==> decode_outcome(*config, format, input@) is Some,
        r is Ok ==> r->Ok_0@ == decode_outcome(*config, format, input@)->0,
{
    match format {
        CompressionFormat::Bzip2 => {
            if config.bzip2 {
                bzip2_decompress(input.as_slice())
            } else {
                Ok(input)
            }
        },
        CompressionFormat::Deflate => {
            if config.deflate {
                gzip_decompress(input.as_slice())
            } else {
                Ok(input)
            }
        },
        CompressionFormat::Lz4 => {
            if config.lz4 {
                lz4_decompress(input.as_slice())
            } else if config.lz4_flex {
                lz4_flex_decompress(input.as_slice())
            } else {
                Ok(input)
            }
        },
        CompressionFormat::Zstd => {
            if config.zstd {
                zstd_decompress(input.as_slice())
            } else {
                Ok(input)
            }
        },
    }
}

} // verus!
