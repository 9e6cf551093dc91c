//! The bytes around a message: the header byte of a frame, the headers and
//! the compression of a request, and the reading of a response.
use crate::address::same_text;
use crate::api::{service_error, ApiClientError, REQUEST_FAILED, REQUEST_REJECTED};
use vstd::prelude::*;
use vstd::string::*;

verus! {

/// The header byte that this client writes before a payload.
pub const FRAME_HEADER: u8 = 0;

/// The seconds that a request may take.
pub const REQUEST_TIMEOUT_SECS: u64 = 10;

/// The length of the shortest gzip stream: its header and its trailer.
pub const GZIP_MIN_LEN: usize = 18;

/// How a gzip stream failed to decompress.
#[derive(Clone, Copy, Debug, PartialEq, Eq, Structural)]
pub enum GzipError {
    /// The stream is not valid.
    BadData,
    /// The stream holds more than the space given to it.
    InsufficientSpace,
}

/// The frame that carries `payload`: the header byte, then the payload.
pub open spec fn framed(payload: Seq<u8>) -> Seq<u8> {
    seq![FRAME_HEADER] + payload
}

/// The payload of `frame`: what follows its first byte, whatever that byte
/// is. An empty frame has none.
pub open spec fn unframed(frame: Seq<u8>) -> Option<Seq<u8>> {
    if frame.len() > 0 {
        Some(frame.skip(1))
    } else {
        None
    }
}

/// What `libdeflater` makes of `data` when it compresses it to gzip at its
/// fastest level, into a buffer of the size that it asks for itself.
pub uninterp spec fn gzip_fastest(data: Seq<u8>) -> Option<Seq<u8>>;

/// What `libdeflater` makes of the gzip stream `data` when it decompresses it
/// into a buffer of `capacity` bytes.
pub uninterp spec fn gunzipped(data: Seq<u8>, capacity: nat) -> Result<Seq<u8>, GzipError>;

/// The mathematical value of a result that holds bytes.
pub open spec fn bytes_of<E>(r: Result<Vec<u8>, E>) -> Result<Seq<u8>, E> {
    match r {
        Ok(v) => Ok(v@),
        Err(e) => Err(e),
    }
}

/// `libdeflater::Compressor::gzip_compress`, on a compressor made at
/// `CompressionLvl::fastest()` and a buffer of `gzip_compress_bound` bytes:
/// the gzip stream of `data`, cut to the length that the compressor reports,
/// or nothing where it reports that the buffer is too small. The stream is
/// the same for the same data; it is given the name [`gzip_fastest`].
#[verifier::external_body]
fn gzip_compress(data: &[u8]) -> (stream: Option<Vec<u8>>)
    ensures
        stream is Some <==> gzip_fastest(data@) is Some,
        stream matches Some(v) ==> gzip_fastest(data@) == Some(v@),
{
    let mut compressor = libdeflater::Compressor::new(libdeflater::CompressionLvl::fastest());
    let mut out = vec![0u8; compressor.gzip_compress_bound(data.len())];
    match compressor.gzip_compress(data, &mut out) {
        Ok(n) => {
            out.truncate(n);
            Some(out)
        },
        Err(libdeflater::CompressionError::InsufficientSpace) => None,
    }
}

/// `libdeflater::Decompressor::gzip_decompress`, on a new decompressor and a
/// buffer of `capacity` bytes: the content of the gzip stream `data`, cut to
/// the length that the decompressor reports, or the error that it reports.
/// The outcome is the same for the same stream and capacity; it is given the
/// name [`gunzipped`]. The content is written into the buffer, so it is no
/// longer than `capacity`.
#[verifier::external_body]
fn gzip_decompress(data: &[u8], capacity: usize) -> (content: Result<Vec<u8>, GzipError>)
    ensures
        bytes_of(content) == gunzipped(data@, capacity as nat),
        content matches Ok(v) ==> v@.len() <= capacity,
{
    let mut out = vec![0u8; capacity];
    match libdeflater::Decompressor::new().gzip_decompress(data, &mut out) {
        Ok(n) => {
            out.truncate(n);
            Ok(out)
        },
        Err(libdeflater::DecompressionError::BadData) => Err(GzipError::BadData),
        Err(libdeflater::DecompressionError::InsufficientSpace) => Err(
            GzipError::InsufficientSpace,
        ),
    }
}

/// The length that a gzip stream declares for its content, in its last four
/// bytes, lowest first. A stream shorter than any gzip stream declares none.
pub open spec fn declared_length(stream: Seq<u8>) -> Option<nat> {
    if stream.len() >= GZIP_MIN_LEN {
        let n = stream.len() as int;
        Some(
            (stream[n - 4] + stream[n - 3] * 0x100 + stream[n - 2] * 0x1_0000 + stream[n - 1]
                * 0x100_0000) as nat,
        )
    } else {
        None
    }
}

/// The content of a gzip stream, decompressed into as much space as the
/// stream declares.
pub open spec fn inflated(stream: Seq<u8>) -> Result<Seq<u8>, GzipError> {
    match declared_length(stream) {
        Some(n) => if n <= usize::MAX {
            gunzipped(stream, n)
        } else {
            Err(GzipError::InsufficientSpace)
        },
        None => Err(GzipError::BadData),
    }
}

/// Whether a status is one of success.
pub open spec fn is_success(status: u16) -> bool {
    200 <= status < 300
}

/// The headers of a request with the key `api_key`: the content type and
/// the key, and where the body is compressed, the encoding of the body and
/// the encoding that is accepted in return.
pub open spec fn headers_of(api_key: Seq<char>, compress: bool) -> Seq<(Seq<char>, Seq<char>)> {
    let plain = seq![("Content-Type"@, "application/x-protobuf"@), ("api-key"@, api_key)];
    if compress {
        plain + seq![("Content-Encoding"@, "gzip"@), ("Accept-Encoding"@, "gzip"@)]
    } else {
        plain
    }
}

/// The body of a request that carries `payload`: the payload as it is, or its
/// gzip stream where the body is compressed.
pub open spec fn body_of(payload: Seq<u8>, compress: bool) -> Result<Seq<u8>, (u32, Seq<char>)> {
    if compress {
        match gzip_fastest(payload) {
            Some(stream) => Ok(stream),
            None => Err(service_error(REQUEST_FAILED, "compression failed"@)),
        }
    } else {
        Ok(payload)
    }
}

/// The payload of a response, or the error that the response amounts to: a
/// status other than success is an error that names it; a body with the
/// encoding `gzip` is decompressed first; and the payload is what follows the
/// header byte. A body that cannot be read this way holds no payload, which
/// is no error.
pub open spec fn payload_of(status: u16, encoding: Option<&str>, body: Seq<u8>) -> Result<
    Option<Seq<u8>>,
    (u32, Seq<char>),
> {
    if !is_success(status) {
        Err(service_error(REQUEST_REJECTED, crate::api::decimal(status as nat)))
    } else {
        let content = if encoding matches Some(e) && e@ == "gzip"@ {
            inflated(body)
        } else {
            Ok(body)
        };
        match content {
            Ok(frame) => Ok(unframed(frame)),
            Err(_) => Ok(None),
        }
    }
}

/// The mathematical value of a reading of a response.
pub open spec fn reading_of(r: Result<Option<Vec<u8>>, ApiClientError>) -> Result<
    Option<Seq<u8>>,
    (u32, Seq<char>),
> {
    match r {
        Ok(Some(v)) => Ok(Some(v@)),
        Ok(None) => Ok(None),
        Err(e) => Err(e@),
    }
}

/// The mathematical value of a result of this module.
pub open spec fn outcome_of(r: Result<Vec<u8>, ApiClientError>) -> Result<Seq<u8>, (u32, Seq<char>)> {
    match r {
        Ok(v) => Ok(v@),
        Err(e) => Err(e@),
    }
}

/// The mathematical values of a list of headers.
pub open spec fn header_views(headers: Seq<(String, String)>) -> Seq<(Seq<char>, Seq<char>)> {
    headers.map_values(|h: (String, String)| (h.0@, h.1@))
}

/// A frame takes its payload out as it was put in.
pub proof fn lemma_unframe_frame(payload: Seq<u8>)
    ensures
        unframed(framed(payload)) == Some(payload),
{
    assert(framed(payload).skip(1) =~= payload);
}

/// The frame that carries `payload`.
pub fn frame(payload: &[u8]) -> (bytes: Vec<u8>)
    ensures
        bytes@ == framed(payload@),
{
    let mut bytes: Vec<u8> = Vec::new();
    bytes.push(FRAME_HEADER);
    let mut i: usize = 0;
    while i < payload.len()
        invariant
            i <= payload.len(),
            bytes@ == framed(payload@.take(i as int)),
        decreases payload.len() - i,
    {
        bytes.push(payload[i]);
        i = i + 1;
        assert(bytes@ =~= framed(payload@.take(i as int)));
    }
    assert(payload@.take(i as int) =~= payload@);
    bytes
}

/// The payload of `frame`, if it has one.
pub fn unframe(frame: &[u8]) -> (payload: Option<Vec<u8>>)
    ensures
        payload is Some <==> unframed(frame@) is Some,
        payload matches Some(p) ==> unframed(frame@) == Some(p@),
{
    if frame.len() == 0 {
        return None;
    }
    let mut payload: Vec<u8> = Vec::new();
    let mut i: usize = 1;
    while i < frame.len()
        invariant
            1 <= i <= frame.len(),
            payload@ == frame@.subrange(1, i as int),
        decreases frame.len() - i,
    {
        payload.push(frame[i]);
        i = i + 1;
        assert(payload@ =~= frame@.subrange(1, i as int));
    }
    assert(frame@.subrange(1, i as int) =~= frame@.skip(1));
    Some(payload)
}

/// Decompresses a gzip stream into as much space as the stream declares.
pub fn inflate(stream: &[u8]) -> (content: Result<Vec<u8>, GzipError>)
    ensures
        bytes_of(content) == inflated(stream@),
{
    let n = stream.len();
    if n < GZIP_MIN_LEN {
        return Err(GzipError::BadData);
    }
    let declared: u32 = stream[n - 4] as u32 + stream[n - 3] as u32 * 0x100 + stream[n - 2] as u32
        * 0x1_0000 + stream[n - 1] as u32 * 0x100_0000;
    if declared as u64 > usize::MAX as u64 {
        return Err(GzipError::InsufficientSpace);
    }
    gzip_decompress(stream, declared as usize)
}

/// The headers of a request with the key `api_key`.
pub fn request_headers(api_key: &str, compress: bool) -> (headers: Vec<(String, String)>)
    ensures
        header_views(headers@) == headers_of(api_key@, compress),
{
    let mut headers: Vec<(String, String)> = Vec::new();
    headers.push((String::from_str("Content-Type"), String::from_str("application/x-protobuf")));
    headers.push((String::from_str("api-key"), String::from_str(api_key)));
    if compress {
        headers.push((String::from_str("Content-Encoding"), String::from_str("gzip")));
        headers.push((String::from_str("Accept-Encoding"), String::from_str("gzip")));
    }
    assert(header_views(headers@) =~= headers_of(api_key@, compress));
    headers
}

/// The body of a request that carries `payload`.
pub fn request_body(payload: Vec<u8>, compress: bool) -> (body: Result<Vec<u8>, ApiClientError>)
    ensures
        outcome_of(body) == body_of(payload@, compress),
{
    if compress {
        match gzip_compress(payload.as_slice()) {
            Some(stream) => Ok(stream),
            None => Err(ApiClientError::new(REQUEST_FAILED, "compression failed")),
        }
    } else {
        Ok(payload)
    }
}

/// Reads a response: the payload that it carries, if it can be read, or the
/// error that it amounts to.
pub fn response_payload(status: u16, encoding: Option<&str>, body: Vec<u8>) -> (payload: Result<
    Option<Vec<u8>>,
    ApiClientError,
>)
    ensures
        reading_of(payload) == payload_of(status, encoding, body@),
{
    if status < 200 || status >= 300 {
        let number = crate::api::decimal_text(status as u32);
        return Err(ApiClientError::new(REQUEST_REJECTED, number.as_str()));
    }
    let gzip = match encoding {
        Some(e) => same_text(e, "gzip"),
        None => false,
    };
    let content = if gzip {
        inflate(body.as_slice())
    } else {
        Ok(body)
    };
    match content {
        Ok(frame) => Ok(unframe(frame.as_slice())),
        Err(_) => Ok(None),
    }
}

} // verus!
