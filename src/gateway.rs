use vstd::prelude::*;
use vstd::utf8::encode_utf8;

verus! {

/// Tag byte of a streaming frame that carries a successful result.
pub const STDOUT_CHANNEL: u8 = 1;

/// Tag byte of a streaming frame that carries an error message.
pub const STDERR_CHANNEL: u8 = 2;

/// The bytes of a streaming exec frame: one tag byte, then the payload.
pub open spec fn framed(tag: u8, payload: Seq<u8>) -> Seq<u8> {
    seq![tag] + payload
}

/// Builds the single binary frame that answers a streaming exec request:
/// the tag `STDOUT_CHANNEL` and the result's UTF-8 bytes on success, the tag
/// `STDERR_CHANNEL` and the error text's bytes on failure.
pub fn exec_frame(result: &Result<String, String>) -> (r: Vec<u8>)
    ensures
        match result {
            Ok(s) => r@ == framed(STDOUT_CHANNEL, encode_utf8(s@)),
            Err(e) => r@ == framed(STDERR_CHANNEL, encode_utf8(e@)),
        },
{
    let (tag, text) = match result {
        Ok(s) => (STDOUT_CHANNEL, s.as_str()),
        Err(e) => (STDERR_CHANNEL, e.as_str()),
    };
    let mut out: Vec<u8> = Vec::new();
    out.push(tag);
    let mut payload = bytes_of(text);
    out.append(&mut payload);
    out
}


/// The status code and body of a unary exec answer: 200 with the result's
/// bytes on success, 500 with the error text's bytes on failure.
pub fn exec_response(result: &Result<String, String>) -> (r: (u16, Vec<u8>))
    ensures
        match result {
            Ok(s) => r.0 == 200 && r.1@ == encode_utf8(s@),
            Err(e) => r.0 == 500 && r.1@ == encode_utf8(e@),
        },
{
    let (code, text) = match result {
        Ok(s) => (200u16, s.as_str()),
        Err(e) => (500u16, e.as_str()),
    };
    (code, bytes_of(text))
}

fn bytes_of(text: &str) -> (r: Vec<u8>)
    ensures
        r@ == encode_utf8(text@),
{
    let bytes = text.as_bytes();
    let mut out: Vec<u8> = Vec::new();
    let mut i: usize = 0;
    while i < bytes.len()
        invariant
            0 <= i <= bytes@.len(),
            out@ == bytes@.subrange(0, i as int),
        decreases bytes@.len() - i,
    {
        out.push(bytes[i]);
        i = i + 1;
    }
    assert(bytes@.subrange(0, bytes@.len() as int) =~= bytes@);
    out
}

/// How a failed log request is answered.
#[derive(Clone, Copy, Debug, PartialEq, Eq, Structural)]
pub enum LogFailure {
    /// The provider does not implement log retrieval.
    NotImplemented,
    /// Any other error.
    Other,
}

/// The status code and body of a failed log request: 501 when the provider
/// does not implement logs, else 500 with the error's description.
pub fn log_error_response(failure: LogFailure, description: &str) -> (r: (u16, String))
    ensures
        failure == LogFailure::NotImplemented ==> r.0 == 501 && r.1@
            == "Logs not implemented in provider."@,
        failure == LogFailure::Other ==> r.0 == 500 && r.1@ == "Server error: "@ + description@,
{
    match failure {
        LogFailure::NotImplemented => (501, String::from_str("Logs not implemented in provider.")),
        LogFailure::Other => {
            let mut body = String::from_str("Server error: ");
            body.append(description);
            (500, body)
        },
    }
}

} // verus!
