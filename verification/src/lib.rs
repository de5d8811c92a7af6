//! Client-side core of a BankID relying-party integration: the personal
//! identity number parser and canonical renderer, the wire-literal codecs for
//! the collect and error vocabularies, the JSON request bodies, and the
//! classification of transport outcomes. The network exchange itself is left
//! to an embedding application.
use vstd::prelude::*;
use vstd::string::StringExecFns;

pub mod json;
mod pno;
pub mod request;
pub mod tokens;
pub mod response;
pub mod text;

pub use pno::grammar_ok;
pub use pno::is_canonical12;
pub use pno::is_separated13;
pub use pno::digit_groups;
pub use pno::parse_spec;
pub use pno::PersonalNumber;

verus! {

/// The discriminated result type every operation reports its failures
/// through: input validation, transport trouble, a server-reported business
/// error, and a response whose shape the client does not recognize.
#[derive(Debug, Clone)]
pub enum Error {
    /// The given text is not a valid personal identity number.
    InvalidPersonalNumber(&'static str),
    /// The exchange failed before any HTTP status was available
    /// (connection, TLS, timeout), described by the transport's message.
    TransportFailure(String),
    /// The server answered with a structured business error.
    ClientError(crate::response::ClientError),
    /// A response arrived whose body does not have the documented shape:
    /// an incompatibility between client and server, distinct from both a
    /// transport failure and a business error.
    UnexpectedResponse(&'static str),
}

/// A client identity for mutual TLS: PKCS#12 key and certificate material
/// with its passphrase, supplied by the embedding application.
pub struct Identity {
    pub pkcs12_der: Vec<u8>,
    pub password: String,
}

/// The network environment an order client talks to: the public test
/// environment with its well-known identity material, or production with
/// caller-supplied key material. The base address and trust root follow
/// deterministically from the variant.
pub enum Endpoint {
    Test,
    Production(Identity),
}

impl Endpoint {
    /// The base address that operation paths are joined onto.
    pub open spec fn base_spec(&self) -> Seq<char> {
        match self {
            Endpoint::Test => "https://appapi2.test.bankid.com/rp/v5.1/"@,
            Endpoint::Production(_) => "https://appapi2.bankid.com/rp/v5.1/"@,
        }
    }

    /// Joins an operation path onto the environment's base address.
    pub fn url(&self, path: &str) -> (r: String)
        ensures
            r@ == self.base_spec() + path@,
    {
        let mut s = match self {
            Endpoint::Test => String::from_str("https://appapi2.test.bankid.com/rp/v5.1/"),
            Endpoint::Production(_) => String::from_str("https://appapi2.bankid.com/rp/v5.1/"),
        };
        s.append(path);
        s
    }
}

/// Whether an HTTP status code counts as success: the body is then the
/// operation's success payload, otherwise it is a server error payload.
pub fn is_success_status(status: u16) -> (r: bool)
    ensures
        r <==> 200 <= status < 300,
{
    200 <= status && status < 300
}

} // verus!
