//! Payload encodings the relay recognises. The server never compresses or
//! decompresses anything: it records the advertised encoding and echoes it
//! back as the `Content-Encoding` of the download.

use vstd::prelude::*;
use vstd::string::StringExecFns;
use crate::text::{ascii_lower, spec_ascii_lower, str_eq};

verus! {

#[derive(Debug, Clone, Copy, PartialEq, Eq, Structural)]
pub enum Compression {
    Plain,
    Brotli,
    Deflate,
    Gzip,
    Zstd,
}

/// The wire name of each encoding, as it appears in form fields and in the
/// `Content-Encoding` header.
pub open spec fn spec_name(c: Compression) -> Seq<char> {
    match c {
        Compression::Plain => "none"@,
        Compression::Gzip => "gzip"@,
        Compression::Deflate => "deflate"@,
        Compression::Brotli => "br"@,
        Compression::Zstd => "zstd"@,
    }
}

impl Compression {
    /// The wire name of this encoding.
    pub fn to_string(&self) -> (r: String)
        ensures
            r@ == spec_name(*self),
    {
        match self {
            Compression::Plain => String::from_str("none"),
            Compression::Gzip => String::from_str("gzip"),
            Compression::Deflate => String::from_str("deflate"),
            Compression::Brotli => String::from_str("br"),
            Compression::Zstd => String::from_str("zstd"),
        }
    }

    /// Parses a wire name, ignoring ASCII case. Accepts exactly the five
    /// names; anything else is an error carrying the offending input.
    pub fn from_str(s: &str) -> (r: Result<Compression, String>)
        ensures
            r is Ok <==> (exists|c: Compression| spec_ascii_lower(s@) == spec_name(c)),
            r matches Ok(c) ==> spec_ascii_lower(s@) == spec_name(c),
            r matches Err(e) ==> e@ == "Unknown compression type: "@ + s@,
    {
        let lowered = ascii_lower(s);
        if str_eq(lowered.as_str(), "none") {
            proof {
                assert(spec_ascii_lower(s@) == spec_name(Compression::Plain));
            }
            Ok(Compression::Plain)
        } else if str_eq(lowered.as_str(), "gzip") {
            proof {
                assert(spec_ascii_lower(s@) == spec_name(Compression::Gzip));
            }
            Ok(Compression::Gzip)
        } else if str_eq(lowered.as_str(), "deflate") {
            proof {
                assert(spec_ascii_lower(s@) == spec_name(Compression::Deflate));
            }
            Ok(Compression::Deflate)
        } else if str_eq(lowered.as_str(), "br") {
            proof {
                assert(spec_ascii_lower(s@) == spec_name(Compression::Brotli));
            }
            Ok(Compression::Brotli)
        } else if str_eq(lowered.as_str(), "zstd") {
            proof {
                assert(spec_ascii_lower(s@) == spec_name(Compression::Zstd));
            }
            Ok(Compression::Zstd)
        } else {
            proof {
                reveal_strlit("none");
                reveal_strlit("gzip");
                reveal_strlit("deflate");
                reveal_strlit("br");
                reveal_strlit("zstd");
                assert forall|c: Compression| spec_ascii_lower(s@) != spec_name(c) by {
                    assert(spec_ascii_lower(s@) != spec_name(Compression::Plain));
                }
            }
            Err(String::from_str("Unknown compression type: ").concat(s))
        }
    }

    /// The default encoding: no compression.
    pub fn default() -> (r: Compression)
        ensures
            r == Compression::Plain,
    {
        Compression::Plain
    }
}

} // verus!
