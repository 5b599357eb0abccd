use vstd::prelude::*;

verus! {

/// The I/O error of the standard library, carried through as it is.
#[verifier::external_type_specification]
#[verifier::external_body]
pub struct ExIoError(std::io::Error);

/// The error of the Cap'n Proto runtime, carried through as it is.
#[verifier::external_type_specification]
#[verifier::external_body]
pub struct ExCapnpError(capnp::Error);

/// The error that Bitcoin consensus decoding reports, carried through as it is.
#[verifier::external_type_specification]
#[verifier::external_body]
pub struct ExEncodeError(roles_logic_sv2::bitcoin::consensus::encode::Error);

/// Everything that can go wrong while talking to Bitcoin Core or handling the
/// templates it sends.
#[derive(Debug)]
pub enum Sv2BitcoinCoreError {
    CapnpError(capnp::Error),
    IoError(std::io::Error),
    InvalidTemplateHeader(roles_logic_sv2::bitcoin::consensus::encode::Error),
    InvalidTemplateHeaderLength,
    InvalidBlockStructure,
    TemplateNotFound,
}

impl From<capnp::Error> for Sv2BitcoinCoreError {
    fn from(error: capnp::Error) -> (res: Self) {
        Sv2BitcoinCoreError::CapnpError(error)
    }
}

impl vstd::std_specs::convert::FromSpecImpl<capnp::Error> for Sv2BitcoinCoreError {
    open spec fn obeys_from_spec() -> bool {
        true
    }

    open spec fn from_spec(error: capnp::Error) -> Self {
        Sv2BitcoinCoreError::CapnpError(error)
    }
}

impl From<std::io::Error> for Sv2BitcoinCoreError {
    fn from(error: std::io::Error) -> (res: Self) {
        Sv2BitcoinCoreError::IoError(error)
    }
}

impl vstd::std_specs::convert::FromSpecImpl<std::io::Error> for Sv2BitcoinCoreError {
    open spec fn obeys_from_spec() -> bool {
        true
    }

    open spec fn from_spec(error: std::io::Error) -> Self {
        Sv2BitcoinCoreError::IoError(error)
    }
}

impl From<roles_logic_sv2::bitcoin::consensus::encode::Error> for Sv2BitcoinCoreError {
    fn from(error: roles_logic_sv2::bitcoin::consensus::encode::Error) -> (res: Self) {
        Sv2BitcoinCoreError::InvalidTemplateHeader(error)
    }
}

impl vstd::std_specs::convert::FromSpecImpl<roles_logic_sv2::bitcoin::consensus::encode::Error> for Sv2BitcoinCoreError {
    open spec fn obeys_from_spec() -> bool {
        true
    }

    open spec fn from_spec(error: roles_logic_sv2::bitcoin::consensus::encode::Error) -> Self {
        Sv2BitcoinCoreError::InvalidTemplateHeader(error)
    }
}

} // verus!
