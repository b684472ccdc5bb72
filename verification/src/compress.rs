//! The compression engine: deflate-compress in-memory file content.
//!
//! The file's bytes are read by the caller — through a whole-file read or a
//! read-only memory mapping, as [`ReadStrategy`] says — and handed in; the
//! payload is a function of those bytes and the level alone, so the two
//! strategies cannot differ in observable output.

use crate::params::CompressParams;
use vstd::prelude::*;

verus! {

/// How the caller obtains a file's bytes before compression. Both strategies
/// yield the file's exact bytes, so the payload does not depend on the
/// choice; see [`lemma_strategy_equivalence`].
#[derive(Clone, Copy, Debug, PartialEq, Eq, Structural)]
pub enum ReadStrategy {
    /// Read the whole file into an owned buffer.
    Buffered,
    /// Map the file read-only and compress the mapped view.
    Mapped,
}

/// The compressed stream that the deflate encoder produces for the given
/// input bytes at the given level; a fixed function of the two alone.
pub uninterp spec fn deflate_of(data: Seq<u8>, level: u8) -> Seq<u8>;

/// Relies on flate2's `write::DeflateEncoder`: fed the whole input and then
/// finished (which terminates the stream), it emits the deflate encoding of
/// the input at the given level, a deterministic function of input and level.
/// The sink is an in-memory vector, whose writes cannot fail, and the level
/// is valid, so the encoder always succeeds; a finished stream carries at
/// least its final-block marker and so is never empty.
#[verifier::external_body]
fn deflate_encode(data: &[u8], level: u8) -> (r: Result<Vec<u8>, String>)
    requires
        1 <= level <= 9,
    ensures
        r is Ok,
        r matches Ok(v) ==> (v@ == deflate_of(data@, level) && v@.len() > 0),
{
    let compression = flate2::Compression::new(level as u32);
    let mut encoder = flate2::write::DeflateEncoder::new(Vec::new(), compression);
    if let Err(e) = std::io::Write::write_all(&mut encoder, data) {
        return Err(format!("{}", e));
    }
    match encoder.finish() {
        Ok(v) => Ok(v),
        Err(e) => Err(format!("{}", e)),
    }
}

/// Failures inside the compression step; the encoder writes to an in-memory
/// sink, so every failure surfaces as an input/output failure with the
/// underlying message.
#[derive(Debug)]
pub enum CompressError {
    Io(String),
}

/// Compress `data` with a deflate encoder at `compression_level`, finishing
/// the stream so that the payload carries its terminating marker. Always
/// succeeds: the encoder writes to an in-memory sink.
pub fn deflate_compress_data(data: &[u8], compression_level: u8) -> (r: Result<
    Vec<u8>,
    CompressError,
>)
    requires
        1 <= compression_level <= 9,
    ensures
        r matches Ok(v) && v@ == deflate_of(data@, compression_level) && v@.len() > 0,
{
    match deflate_encode(data, compression_level) {
        Ok(v) => Ok(v),
        Err(m) => Err(CompressError::Io(m)),
    }
}

/// The engine's entry: compress the given file content under validated
/// parameters. The content is whatever bytes the caller's read strategy
/// yielded for `params.file_path`. Always succeeds with a non-empty payload.
pub fn compress_file_deflate(params: &CompressParams, content: &[u8]) -> (r: Result<
    Vec<u8>,
    CompressError,
>)
    requires
        params.wf(),
    ensures
        r matches Ok(v) && v@ == deflate_of(content@, params.compression_level) && v@.len() > 0,
{
    deflate_compress_data(content, params.compression_level)
}

/// Relies on flate2's `read::DeflateDecoder`: deflate is a lossless codec, so
/// decoding a complete, terminated stream that the encoder produced succeeds
/// and yields exactly the bytes the encoder was fed.
#[verifier::external_body]
fn deflate_decode(data: &[u8]) -> (r: Result<Vec<u8>, String>)
    ensures
        r is Err ==> forall|d: Seq<u8>, level: u8|
            1 <= level <= 9 ==> data@ != #[trigger] deflate_of(d, level),
        r matches Ok(v) ==> forall|d: Seq<u8>, level: u8|
            1 <= level <= 9 && data@ == #[trigger] deflate_of(d, level) ==> v@ == d,
{
    let mut decoder = flate2::read::DeflateDecoder::new(data);
    let mut buf = Vec::new();
    match std::io::Read::read_to_end(&mut decoder, &mut buf) {
        Ok(_) => Ok(buf),
        Err(e) => Err(format!("{}", e)),
    }
}

/// Decompress a payload the engine produced. Round trip: whenever the payload
/// is the compression of some bytes at some valid level, decompression
/// succeeds and restores those bytes exactly, length included.
pub fn decompress_payload(payload: &[u8]) -> (r: Result<Vec<u8>, CompressError>)
    ensures
        forall|d: Seq<u8>, level: u8|
            1 <= level <= 9 && payload@ == #[trigger] deflate_of(d, level) ==> (r matches Ok(v)
                && v@ == d),
{
    match deflate_decode(payload) {
        Ok(v) => Ok(v),
        Err(m) => Err(CompressError::Io(m)),
    }
}

/// Round trip, end to end: compressing and then decompressing succeeds and
/// hands back the original content byte for byte.
pub fn compress_round_trip(content: &[u8], level: u8) -> (r: Option<Vec<u8>>)
    requires
        1 <= level <= 9,
    ensures
        r matches Some(v) && v@ == content@,
{
    match deflate_compress_data(content, level) {
        Ok(payload) => match decompress_payload(payload.as_slice()) {
            Ok(back) => Some(back),
            Err(_) => None,
        },
        Err(_) => None,
    }
}

/// Determinism: the payload is a function of the input bytes and the level,
/// so compressing the same content at the same level twice yields
/// byte-identical output.
pub proof fn lemma_compress_deterministic(data: Seq<u8>, level: u8, out1: Seq<u8>, out2: Seq<u8>)
    requires
        out1 == deflate_of(data, level),
        out2 == deflate_of(data, level),
    ensures
        out1 == out2,
{
}

/// Strategy equivalence: a buffered read and a mapped read of the same file
/// yield the same bytes, and equal bytes at an equal level compress to a
/// byte-identical payload — the reading strategy cannot change the output.
pub proof fn lemma_strategy_equivalence(buffered: Seq<u8>, mapped: Seq<u8>, level: u8)
    requires
        buffered == mapped,
    ensures
        deflate_of(buffered, level) == deflate_of(mapped, level),
{
}

} // verus!
