//! Output encoding: raw bytes, or a gzip stream when the destination name
//! calls for one.
//!
//! The destination name selects the encoding: a name whose final
//! `/`-separated component ends in `.gz`, with at least one byte of stem
//! before the dot, gets gzip compression at the default level; any other
//! name gets the text bytes unchanged.

use vstd::prelude::*;

verus! {

/// The gzip stream that compressing `data` at the default level with the
/// default header produces; it depends on the payload bytes alone.
pub uninterp spec fn gzip_of(data: Seq<u8>) -> Seq<u8>;

/// Relies on flate2's `write::GzEncoder` over an in-memory buffer at the
/// default compression level: its header carries a zero timestamp and a
/// fixed operating-system byte, so the stream is a function of the payload
/// bytes alone, and writing to a memory buffer cannot fail.
#[verifier::external_body]
fn gzip_bytes(data: &Vec<u8>) -> (r: Vec<u8>)
    ensures
        r@ == gzip_of(data@),
{
    let mut enc = flate2::write::GzEncoder::new(Vec::new(), flate2::Compression::default());
    std::io::Write::write_all(&mut enc, data.as_slice()).expect("memory write cannot fail");
    enc.finish().expect("memory write cannot fail")
}

/// A destination name asks for gzip when it ends in `.gz` and the byte
/// before the dot is neither missing nor a `/` separator.
pub open spec fn gz_name_spec(name: Seq<u8>) -> bool {
    &&& name.len() >= 4
    &&& name[name.len() - 3] == 46u8
    &&& name[name.len() - 2] == 103u8
    &&& name[name.len() - 1] == 122u8
    &&& name[name.len() - 4] != 47u8
}

/// Decide from the destination name whether output is gzip-compressed.
pub fn is_gz_name(name: &Vec<u8>) -> (r: bool)
    ensures
        r == gz_name_spec(name@),
{
    let n = name.len();
    n >= 4 && name[n - 3] == 46u8 && name[n - 2] == 103u8 && name[n - 1] == 122u8 && name[n
        - 4] != 47u8
}

/// The bytes that reach the destination: the text itself, or its gzip
/// stream when compression was selected.
pub open spec fn encoded_output_spec(text: Seq<u8>, gz: bool) -> Seq<u8> {
    if gz {
        gzip_of(text)
    } else {
        text
    }
}

/// Encode the finished text for the destination.
pub fn encode_output(text: Vec<u8>, gz: bool) -> (r: Vec<u8>)
    ensures
        r@ == encoded_output_spec(text@, gz),
{
    if gz {
        gzip_bytes(&text)
    } else {
        text
    }
}

/// A compressed destination receives exactly the gzip stream of the bytes
/// that an uncompressed destination would receive, for the same text.
pub proof fn lemma_compressed_carries_plain(text: Seq<u8>)
    ensures
        encoded_output_spec(text, true) == gzip_of(encoded_output_spec(text, false)),
{
}

} // verus!
