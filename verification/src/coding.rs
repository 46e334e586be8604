//! How bodies are coded in the cache.

use std::future::Future;
use std::task::{Context, Poll, Waker};

use async_compression::tokio::bufread::{BrotliDecoder, BrotliEncoder};
use async_compression::Level;
use tokio::io::{AsyncReadExt, BufReader};
use vstd::prelude::*;

use crate::fault::Fault;

verus! {

#[verifier::external_type_specification]
#[verifier::external_body]
pub struct ExIoError(std::io::Error);

/// The bytes that a brotli stream stands for; none where it is no such stream, or not all of one.
pub uninterp spec fn brotli_plain(coded: Seq<u8>) -> Option<Seq<u8>>;

/// Whether `stored` is a body in the form in which it is stored.
pub open spec fn stores(compressed: bool, stored: Seq<u8>, body: Seq<u8>) -> bool {
    if compressed {
        brotli_plain(stored) == Some(body)
    } else {
        stored == body
    }
}

/// The body that is sent of a stored one: as it is, or decompressed.
pub open spec fn sent(decode: bool, stored: Seq<u8>) -> Option<Seq<u8>> {
    if decode {
        brotli_plain(stored)
    } else {
        Some(stored)
    }
}

/// The bytes of a body, or the fault where there are none.
pub open spec fn body_view(res: Result<Vec<u8>, Fault>) -> Result<Seq<u8>, Fault> {
    match res {
        Ok(body) => Ok(body@),
        Err(fault) => Err(fault),
    }
}

/// `BrotliEncoder::with_quality` at `Level::Best`, read to its end, which never has to wait, since
/// all of its input is at hand: a stream from which the bytes can be had again. The encoder fails
/// only on input that comes during a flush or after the end, and a reader hands it none. Which of
/// the many such streams it is rests on how much room the reader has at a time, and is not stated.
#[verifier::external_body]
fn compress(bytes: &[u8]) -> (res: Result<Vec<u8>, std::io::Error>)
    ensures
        res is Ok,
        res matches Ok(coded) ==> brotli_plain(coded@) == Some(bytes@),
{
    let mut coded: Vec<u8> = Vec::new();
    let mut encoder = BrotliEncoder::with_quality(bytes, Level::Best);
    let mut reading = Box::pin(encoder.read_to_end(&mut coded));
    let read = reading.as_mut().poll(&mut Context::from_waker(Waker::noop()));
    drop(reading);
    match read {
        Poll::Ready(outcome) => outcome.map(|_| coded),
        Poll::Pending => Err(std::io::ErrorKind::WouldBlock.into()),
    }
}

/// `BrotliDecoder::new`, read to its end, which never has to wait, since all of its input is at
/// hand. What a stream stands for, and which bytes are one, is named, not stated.
#[verifier::external_body]
fn decompress(coded: &[u8]) -> (res: Result<Vec<u8>, std::io::Error>)
    ensures
        res matches Ok(bytes) ==> brotli_plain(coded@) == Some(bytes@),
        res is Err ==> brotli_plain(coded@) is None,
{
    let mut bytes: Vec<u8> = Vec::new();
    let mut decoder = BrotliDecoder::new(BufReader::new(coded));
    let mut reading = Box::pin(decoder.read_to_end(&mut bytes));
    let read = reading.as_mut().poll(&mut Context::from_waker(Waker::noop()));
    drop(reading);
    match read {
        Poll::Ready(outcome) => outcome.map(|_| bytes),
        Poll::Pending => Err(std::io::ErrorKind::WouldBlock.into()),
    }
}

/// Puts a body into the form in which it is stored.
pub fn encode_body(compressed: bool, body: Vec<u8>) -> (res: Result<Vec<u8>, Fault>)
    ensures
        res matches Ok(stored) && stores(compressed, stored@, body@),
        compressed ==> (res matches Ok(stored) && brotli_plain(stored@) == Some(body@)),
        !compressed ==> (res matches Ok(stored) && stored@ == body@),
{
    if compressed {
        match compress(body.as_slice()) {
            Ok(stored) => Ok(stored),
            Err(_) => Err(Fault::PartCopy),
        }
    } else {
        Ok(body)
    }
}

/// Puts a stored body into the form in which it is sent.
pub fn decode_body(decode: bool, stored: Vec<u8>) -> (res: Result<Vec<u8>, Fault>)
    ensures
        body_view(res) == (match sent(decode, stored@) {
            Some(body) => Ok(body),
            None => Err(Fault::BodyDecompress),
        }),
        res matches Ok(body) ==> if decode {
            brotli_plain(stored@) == Some(body@)
        } else {
            body@ == stored@
        },
        res matches Err(fault) ==> decode && brotli_plain(stored@) is None && fault
            == Fault::BodyDecompress,
{
    if decode {
        match decompress(stored.as_slice()) {
            Ok(body) => Ok(body),
            Err(_) => Err(Fault::BodyDecompress),
        }
    } else {
        Ok(stored)
    }
}

}
