//! The compression engine: runs a byte buffer through the Gzip or Brotli
//! encoder of the `async-compression` crate at a configured quality level.
//! The encoders' output is named, not restated: `gzip_of` and `brotli_of`
//! stand for the bytes the vendored encoders produce, a function of the
//! input bytes and the quality level alone.

use vstd::prelude::*;

use async_compression::futures::bufread::{BrotliEncoder, GzipEncoder};
use futures::io::AsyncReadExt;
use futures::task::noop_waker;
use std::future::Future;
use std::task::{Context, Poll};

use crate::encoding::CachedEncoding;

verus! {

/// Quality level for a compression codec. `Precise` qualities are
/// interpreted by the codec and implicitly clamped to its range.
#[derive(Debug, Copy, Clone, PartialEq, Eq, Structural)]
pub enum Level {
    /// Fastest quality of compression, usually produces a bigger size.
    Fastest,
    /// Best quality of compression, usually produces the smallest size.
    Best,
    /// Default quality of the selected compression algorithm.
    Default,
    /// Precise quality based on the underlying algorithm's qualities.
    Precise(i32),
}

/// An injective selector for a quality level: `Precise` levels keep their
/// value, the three symbolic levels sit above the whole `i32` range.
pub open spec fn level_select(l: Level) -> int {
    match l {
        Level::Precise(q) => q as int,
        Level::Fastest => 0x8000_0000,
        Level::Best => 0x8000_0001,
        Level::Default => 0x8000_0002,
    }
}

/// The Gzip encoding of `data` at the quality selected by `level`.
pub uninterp spec fn gzip_of(data: Seq<u8>, level: int) -> Seq<u8>;

/// Whether the Gzip encoder succeeds on `data` at the quality selected by
/// `level`. Over an in-memory slice the encoder has no other input, so
/// success, like the bytes themselves, is a function of the arguments alone.
pub uninterp spec fn gzip_ok(data: Seq<u8>, level: int) -> bool;

/// The Brotli encoding of `data` at the quality selected by `level`.
pub uninterp spec fn brotli_of(data: Seq<u8>, level: int) -> Seq<u8>;

/// Whether the Brotli encoder succeeds on `data` at the quality selected by
/// `level`.
pub uninterp spec fn brotli_ok(data: Seq<u8>, level: int) -> bool;

/// The bytes the chosen codec produces for `data` at `level`.
pub open spec fn compressed_bytes(codec: CachedEncoding, data: Seq<u8>, level: Level) -> Seq<u8> {
    match codec {
        CachedEncoding::Gzip => gzip_of(data, level_select(level)),
        CachedEncoding::Brotli => brotli_of(data, level_select(level)),
    }
}

/// Whether the chosen codec succeeds on `data` at `level`.
pub open spec fn spec_compress_ok(codec: CachedEncoding, data: Seq<u8>, level: Level) -> bool {
    match codec {
        CachedEncoding::Gzip => gzip_ok(data, level_select(level)),
        CachedEncoding::Brotli => brotli_ok(data, level_select(level)),
    }
}

/// Relies on async_compression::futures::bufread::GzipEncoder: driven to its
/// end over an in-memory slice, whether it succeeds and the bytes it then
/// emits are functions of the input bytes and the quality level alone. The
/// future is polled directly with a no-op waker — over an in-memory slice it
/// never suspends — so no executor is entered and the call cannot panic
/// inside a host's own executor.
#[verifier::external_body]
fn gzip_compress(data: &[u8], level: &Level) -> (r: Result<Vec<u8>, String>)
    ensures
        (r is Ok) == gzip_ok(data@, level_select(*level)),
        r matches Ok(v) ==> v@ == gzip_of(data@, level_select(*level)),
{
    let lvl = match level {
        Level::Fastest => async_compression::Level::Fastest,
        Level::Best => async_compression::Level::Best,
        Level::Default => async_compression::Level::Default,
        Level::Precise(q) => async_compression::Level::Precise(*q),
    };
    let mut enc = GzipEncoder::with_quality(data, lvl);
    let mut out = Vec::new();
    let waker = noop_waker();
    let mut cx = Context::from_waker(&waker);
    let mut fut = Box::pin(enc.read_to_end(&mut out));
    let res = loop { if let Poll::Ready(r) = fut.as_mut().poll(&mut cx) { break r; } };
    drop(fut);
    match res { Ok(_) => Ok(out), Err(e) => Err(e.to_string()) }
}

/// Relies on async_compression::futures::bufread::BrotliEncoder: driven to
/// its end over an in-memory slice, whether it succeeds and the bytes it
/// then emits are functions of the input bytes and the quality level alone.
/// Polled directly with a no-op waker, as `gzip_compress` is, so no executor
/// is entered.
#[verifier::external_body]
fn brotli_compress(data: &[u8], level: &Level) -> (r: Result<Vec<u8>, String>)
    ensures
        (r is Ok) == brotli_ok(data@, level_select(*level)),
        r matches Ok(v) ==> v@ == brotli_of(data@, level_select(*level)),
{
    let lvl = match level {
        Level::Fastest => async_compression::Level::Fastest,
        Level::Best => async_compression::Level::Best,
        Level::Default => async_compression::Level::Default,
        Level::Precise(q) => async_compression::Level::Precise(*q),
    };
    let mut enc = BrotliEncoder::with_quality(data, lvl);
    let mut out = Vec::new();
    let waker = noop_waker();
    let mut cx = Context::from_waker(&waker);
    let mut fut = Box::pin(enc.read_to_end(&mut out));
    let res = loop { if let Poll::Ready(r) = fut.as_mut().poll(&mut cx) { break r; } };
    drop(fut);
    match res { Ok(_) => Ok(out), Err(e) => Err(e.to_string()) }
}

/// Runs `data` through the chosen codec at the given quality, materializing
/// the complete compressed buffer: `Ok` exactly when the codec succeeds on
/// these arguments. An error the encoder surfaces is captured and returned
/// as its message, never dropped.
pub fn compress_body(codec: CachedEncoding, data: &Vec<u8>, level: &Level) -> (r: Result<
    Vec<u8>,
    String,
>)
    ensures
        (r is Ok) == spec_compress_ok(codec, data@, *level),
        r matches Ok(v) ==> v@ == compressed_bytes(codec, data@, *level),
{
    match codec {
        CachedEncoding::Gzip => gzip_compress(data.as_slice(), level),
        CachedEncoding::Brotli => brotli_compress(data.as_slice(), level),
    }
}

} // verus!
