//! Choice of the sink that receives a request body: handed straight to the
//! application consumer, or through a decoder for the request's
//! `Content-Encoding`.
use vstd::prelude::*;

verus! {

/// A content coding as named by a `Content-Encoding` header.
#[derive(Clone, Copy, Debug, PartialEq, Eq, Structural)]
pub enum ContentEncoding {
    /// No header, or a name that is not known.
    Auto,
    Identity,
    Br,
    Gzip,
    Deflate,
}

/// The sink of one exchange's body.
#[derive(Clone, Copy, Debug, PartialEq, Eq, Structural)]
pub enum SinkKind {
    /// Chunks go to the application consumer as they are.
    Passthrough,
    /// Chunks go through a decoder for this coding (never `Auto` or
    /// `Identity`).
    Decoding(ContentEncoding),
}

/// The coding that a header value names: the exact lower-case names
/// `br`, `gzip`, `deflate` and `identity`; anything else is `Auto`.
pub open spec fn encoding_of(v: Seq<u8>) -> ContentEncoding {
    if v == seq![98u8, 114] {
        ContentEncoding::Br
    } else if v == seq![103u8, 122, 105, 112] {
        ContentEncoding::Gzip
    } else if v == seq![100u8, 101, 102, 108, 97, 116, 101] {
        ContentEncoding::Deflate
    } else if v == seq![105u8, 100, 101, 110, 116, 105, 116, 121] {
        ContentEncoding::Identity
    } else {
        ContentEncoding::Auto
    }
}

/// The sink for a request whose `Content-Encoding` header is `header`.
pub open spec fn sink_for(header: Option<Seq<u8>>) -> SinkKind {
    match header {
        None => SinkKind::Passthrough,
        Some(v) => match encoding_of(v) {
            ContentEncoding::Auto | ContentEncoding::Identity => SinkKind::Passthrough,
            e => SinkKind::Decoding(e),
        },
    }
}

/// Reads a `Content-Encoding` header value.
pub fn parse_encoding(v: &[u8]) -> (r: ContentEncoding)
    ensures
        r == encoding_of(v@),
{
    let n = v.len();
    let ghost br = seq![98u8, 114];
    let ghost gzip = seq![103u8, 122, 105, 112];
    let ghost deflate = seq![100u8, 101, 102, 108, 97, 116, 101];
    let ghost identity = seq![105u8, 100, 101, 110, 116, 105, 116, 121];
    proof {
        lemma_bytes_eq(v@, br);
        lemma_bytes_eq(v@, gzip);
        lemma_bytes_eq(v@, deflate);
        lemma_bytes_eq(v@, identity);
    }
    if n == 2 && v[0] == 98 && v[1] == 114 {
        ContentEncoding::Br
    } else if n == 4 && v[0] == 103 && v[1] == 122 && v[2] == 105 && v[3] == 112 {
        ContentEncoding::Gzip
    } else if n == 7 && v[0] == 100 && v[1] == 101 && v[2] == 102 && v[3] == 108 && v[4] == 97
        && v[5] == 116 && v[6] == 101 {
        ContentEncoding::Deflate
    } else if n == 8 && v[0] == 105 && v[1] == 100 && v[2] == 101 && v[3] == 110 && v[4] == 116
        && v[5] == 105 && v[6] == 116 && v[7] == 121 {
        ContentEncoding::Identity
    } else {
        ContentEncoding::Auto
    }
}

/// Two byte sequences are equal exactly when they agree at every index.
proof fn lemma_bytes_eq(a: Seq<u8>, b: Seq<u8>)
    ensures
        (a == b) == (a.len() == b.len() && forall|i: int| 0 <= i < a.len() ==> a[i] == b[i]),
{
    if a.len() == b.len() && forall|i: int| 0 <= i < a.len() ==> a[i] == b[i] {
        assert(a =~= b);
    }
}

/// Chooses the body sink from the request's `Content-Encoding` header, if
/// it has one.
pub fn select_sink(header: Option<&[u8]>) -> (r: SinkKind)
    ensures
        r == sink_for(
            match header {
                Some(h) => Some(h@),
                None => None,
            },
        ),
{
    match header {
        None => SinkKind::Passthrough,
        Some(h) => {
            let e = parse_encoding(h);
            match e {
                ContentEncoding::Auto | ContentEncoding::Identity => SinkKind::Passthrough,
                _ => SinkKind::Decoding(e),
            }
        },
    }
}

} // verus!
