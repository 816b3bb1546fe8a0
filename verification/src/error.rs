//! The crate's error type.

use crate::p2p::Blame;
use crate::text::{decimal_digits, push_decimal};
use vstd::prelude::*;

verus! {

/// Everything that can go wrong in the proving node's core.
///
/// Variants that report a failure of the surroundings (disk, network, codecs)
/// carry the failure rendered as text.
#[derive(Debug)]
pub enum Error {
    /// A local file operation failed.
    IoError(String),
    /// The hosting framework reported an error.
    BlueprintError(String),
    /// The node or the session is configured in a way that cannot work.
    ConfigError(String),
    /// A required setting is absent.
    MissingConfiguration(String),
    /// The storage engine failed or holds inconsistent data.
    StateError(String),
    /// Binary encoding or decoding failed.
    BincodeError(String),
    /// JSON encoding or decoding failed.
    SerdeJsonError(String),
    /// A network operation failed.
    NetworkError(String),
    /// An argument is malformed or names something unknown.
    InvalidInput(String),
    /// An HTTP request failed.
    ReqwestError(String),
    /// A URL could not be parsed.
    UrlParseError(String),
    /// The proving backend cannot be used with the circuit kind.
    IncompatibleBackend(String),
    /// The MPC session could not be set up.
    MpcProtocolError(String),
    /// At least one party revealed something other than what it committed to.
    CommitmentMismatch { guilty_parties: Vec<Blame> },
    /// An endpoint is not of the form `hostname:port`.
    InvalidDnsName(String),
    /// The round transport failed during the configuration exchange.
    ExchangeRoundBasedError(String),
    /// A precondition inside the core was violated.
    Internal(String),
}

/// The text of one blame.
pub open spec fn blame_text(blame: Blame) -> Seq<char> {
    "Blame { guilty_party: "@ + decimal_digits(blame.guilty_party as nat) + ", commitment_msg: "@
        + decimal_digits(blame.commitment_msg as nat) + ", reveal_msg: "@ + decimal_digits(
        blame.reveal_msg as nat,
    ) + " }"@
}

/// The texts of a list of blames, separated by commas.
pub open spec fn blames_text(blames: Seq<Blame>) -> Seq<char>
    decreases blames.len(),
{
    if blames.len() == 0 {
        Seq::empty()
    } else if blames.len() == 1 {
        blame_text(blames[0])
    } else {
        blames_text(blames.drop_last()) + ", "@ + blame_text(blames.last())
    }
}

impl Error {
    /// What introduces the description of an error of this kind.
    pub open spec fn spec_prefix(self) -> Seq<char> {
        match self {
            Error::IoError(_) => "IO Error: "@,
            Error::BlueprintError(_) => "Blueprint Error: "@,
            Error::ConfigError(_) => "Configuration Error: "@,
            Error::MissingConfiguration(_) => "Missing Configuration: "@,
            Error::StateError(_) => "State Error (Database/Storage): "@,
            Error::BincodeError(_) => "Serialization/Deserialization Error (bincode): "@,
            Error::SerdeJsonError(_) => "Serialization/Deserialization Error (serde_json): "@,
            Error::NetworkError(_) => "Networking Error: "@,
            Error::InvalidInput(_) => "Invalid Input: "@,
            Error::ReqwestError(_) => "HTTP Request Error: "@,
            Error::UrlParseError(_) => "Invalid URL: "@,
            Error::IncompatibleBackend(_) => "Incompatible Circuit Type/Proving Backend: "@,
            Error::MpcProtocolError(_) => "MPC Protocol Error: "@,
            Error::CommitmentMismatch { .. } => "Commitment Mismatch - Cheating Detected: "@,
            Error::InvalidDnsName(_) => "Invalid DNS Name Format: "@,
            Error::ExchangeRoundBasedError(_) => "Round-based Protocol Error: "@,
            Error::Internal(_) => "Internal Error: "@,
        }
    }

    /// What the description of this error says after its introduction.
    pub open spec fn spec_detail(self) -> Seq<char> {
        match self {
            Error::IoError(text) => text@,
            Error::BlueprintError(text) => text@,
            Error::ConfigError(text) => text@,
            Error::MissingConfiguration(text) => text@,
            Error::StateError(text) => text@,
            Error::BincodeError(text) => text@,
            Error::SerdeJsonError(text) => text@,
            Error::NetworkError(text) => text@,
            Error::InvalidInput(text) => text@,
            Error::ReqwestError(text) => text@,
            Error::UrlParseError(text) => text@,
            Error::IncompatibleBackend(text) => text@,
            Error::MpcProtocolError(text) => text@,
            Error::CommitmentMismatch { guilty_parties } => "["@ + blames_text(guilty_parties@)
                + "]"@,
            Error::InvalidDnsName(text) => text@,
            Error::ExchangeRoundBasedError(text) => text@,
            Error::Internal(text) => text@,
        }
    }

    /// The description of this error: what kind it is, then the particulars.
    pub open spec fn spec_describe(self) -> Seq<char> {
        self.spec_prefix() + self.spec_detail()
    }

    fn prefix(&self) -> (out: &'static str)
        ensures
            out@ == self.spec_prefix(),
    {
        match self {
            Error::IoError(_) => "IO Error: ",
            Error::BlueprintError(_) => "Blueprint Error: ",
            Error::ConfigError(_) => "Configuration Error: ",
            Error::MissingConfiguration(_) => "Missing Configuration: ",
            Error::StateError(_) => "State Error (Database/Storage): ",
            Error::BincodeError(_) => "Serialization/Deserialization Error (bincode): ",
            Error::SerdeJsonError(_) => "Serialization/Deserialization Error (serde_json): ",
            Error::NetworkError(_) => "Networking Error: ",
            Error::InvalidInput(_) => "Invalid Input: ",
            Error::ReqwestError(_) => "HTTP Request Error: ",
            Error::UrlParseError(_) => "Invalid URL: ",
            Error::IncompatibleBackend(_) => "Incompatible Circuit Type/Proving Backend: ",
            Error::MpcProtocolError(_) => "MPC Protocol Error: ",
            Error::CommitmentMismatch { .. } => "Commitment Mismatch - Cheating Detected: ",
            Error::InvalidDnsName(_) => "Invalid DNS Name Format: ",
            Error::ExchangeRoundBasedError(_) => "Round-based Protocol Error: ",
            Error::Internal(_) => "Internal Error: ",
        }
    }

    /// Renders this error as text.
    pub fn describe(&self) -> (out: String)
        ensures
            out@ == self.spec_describe(),
    {
        let mut out = String::from_str(self.prefix());
        match self {
            Error::IoError(text) => out.append(text.as_str()),
            Error::BlueprintError(text) => out.append(text.as_str()),
            Error::ConfigError(text) => out.append(text.as_str()),
            Error::MissingConfiguration(text) => out.append(text.as_str()),
            Error::StateError(text) => out.append(text.as_str()),
            Error::BincodeError(text) => out.append(text.as_str()),
            Error::SerdeJsonError(text) => out.append(text.as_str()),
            Error::NetworkError(text) => out.append(text.as_str()),
            Error::InvalidInput(text) => out.append(text.as_str()),
            Error::ReqwestError(text) => out.append(text.as_str()),
            Error::UrlParseError(text) => out.append(text.as_str()),
            Error::IncompatibleBackend(text) => out.append(text.as_str()),
            Error::MpcProtocolError(text) => out.append(text.as_str()),
            Error::CommitmentMismatch { guilty_parties } => {
                out.append("[");
                push_blames(&mut out, guilty_parties);
                out.append("]");
                assert(out@ =~= self.spec_describe());
            },
            Error::InvalidDnsName(text) => out.append(text.as_str()),
            Error::ExchangeRoundBasedError(text) => out.append(text.as_str()),
            Error::Internal(text) => out.append(text.as_str()),
        }
        out
    }
}

/// Appends the text of one blame to `out`.
pub fn push_blame(out: &mut String, blame: &Blame)
    ensures
        final(out)@ == old(out)@ + blame_text(*blame),
{
    out.append("Blame { guilty_party: ");
    push_decimal(out, blame.guilty_party as u64);
    out.append(", commitment_msg: ");
    push_decimal(out, blame.commitment_msg);
    out.append(", reveal_msg: ");
    push_decimal(out, blame.reveal_msg);
    out.append(" }");
    assert(out@ =~= old(out)@ + blame_text(*blame));
}

/// Appends the texts of `blames`, separated by commas, to `out`.
pub fn push_blames(out: &mut String, blames: &Vec<Blame>)
    ensures
        final(out)@ == old(out)@ + blames_text(blames@),
{
    let mut k: usize = 0;
    while k < blames.len()
        invariant
            k <= blames.len(),
            out@ == old(out)@ + blames_text(blames@.take(k as int)),
        decreases blames.len() - k,
    {
        if k > 0 {
            out.append(", ");
        }
        push_blame(out, &blames[k]);
        proof {
            let longer = blames@.take(k + 1);
            assert(longer.drop_last() =~= blames@.take(k as int));
            assert(longer.last() == blames@[k as int]);
            assert(out@ =~= old(out)@ + blames_text(longer));
        }
        k = k + 1;
    }
    assert(blames@.take(k as int) =~= blames@);
}

} // verus!
