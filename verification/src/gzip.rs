//! Compression of an outbound body.

use vstd::prelude::*;
use vstd::utf8::encode_utf8;

verus! {

/// The operating system that the header of every stream names: 7, which
/// stands for Macintosh. It is fixed, so that a text gives the same stream
/// on every machine.
pub const HEADER_OS: u8 = 7;

/// The gzip stream that `flate2` writes for `input` at its default level,
/// with `os` in the header's operating-system field; `None` where it fails.
pub uninterp spec fn gzip_stream(input: Seq<u8>, os: u8) -> Option<Seq<u8>>;

/// A `flate2::GzBuilder` with the operating system set, writing into a
/// `Vec` at `Compression::default()`: `write_all` of the input, then
/// `finish`. `None` where either fails.
#[verifier::external_body]
fn gzip(input: &[u8], os: u8) -> (stream: Option<Vec<u8>>)
    ensures
        match stream {
            Some(bytes) => gzip_stream(input@, os) == Some(bytes@),
            None => gzip_stream(input@, os) is None,
        },
{
    let level = flate2::Compression::default();
    let mut encoder = flate2::GzBuilder::new().operating_system(os).write(Vec::new(), level);
    std::io::Write::write_all(&mut encoder, input).ok()?;
    encoder.finish().ok()
}

/// A text that is to be compressed.
pub struct Gzip {
    input: String,
}

impl Gzip {
    /// The text that `encode` compresses.
    pub closed spec fn text(&self) -> Seq<char> {
        self.input@
    }

    pub fn new(input: &str) -> (gzip: Gzip)
        ensures
            gzip.text() == input@,
    {
        Gzip { input: input.to_owned() }
    }

    /// The text, in UTF-8, as a gzip stream. `None` where the compressor
    /// fails.
    pub fn encode(&self) -> (stream: Option<Vec<u8>>)
        ensures
            match stream {
                Some(bytes) => gzip_stream(encode_utf8(self.text()), HEADER_OS) == Some(
                    bytes@,
                ),
                None => gzip_stream(encode_utf8(self.text()), HEADER_OS) is None,
            },
    {
        gzip(self.input.as_str().as_bytes(), HEADER_OS)
    }
}

} // verus!
