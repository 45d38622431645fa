//! Asset filters and the failures they report.

use vstd::prelude::*;

pub mod options;
pub mod run_executable;
pub mod scss2css;

verus! {

#[verifier::external_type_specification]
#[verifier::external_body]
pub struct ExIoError(std::io::Error);

#[verifier::external_type_specification]
#[verifier::external_body]
pub struct ExRsassError(rsass::Error);

/// Why a filter did not produce its output.
///
/// The first four variants are mistakes of the caller or of the
/// configuration; the last two say that the underlying tool was run and
/// failed.
#[derive(Debug)]
pub enum AssetFilterCustomError {
    /// Reading, writing or starting a process failed.
    IOError(std::io::Error),
    /// The filter takes exactly one input file and was given this many.
    InvalidInputCount(usize),
    /// The named option is required and was not given.
    RequiredOptionMissing(String),
    /// The named option was given with a value of the wrong kind.
    InvalidOptionType(String),
    /// The stylesheet compiler rejected its input.
    RSASSError(Box<rsass::Error>),
    /// The external program ended without success; the payload is its exit
    /// code, absent when it was ended by a signal.
    ExecutableStatusNotOk(Option<i32>),
}

/// The mathematical content of an [`AssetFilterCustomError`].
pub enum AssetFilterCustomErrorView {
    IOError(std::io::Error),
    InvalidInputCount(nat),
    RequiredOptionMissing(Seq<char>),
    InvalidOptionType(Seq<char>),
    RSASSError(rsass::Error),
    ExecutableStatusNotOk(Option<i32>),
}

impl View for AssetFilterCustomError {
    type V = AssetFilterCustomErrorView;

    open spec fn view(&self) -> AssetFilterCustomErrorView {
        match self {
            AssetFilterCustomError::IOError(err) => AssetFilterCustomErrorView::IOError(*err),
            AssetFilterCustomError::InvalidInputCount(count) => {
                AssetFilterCustomErrorView::InvalidInputCount(*count as nat)
            },
            AssetFilterCustomError::RequiredOptionMissing(name) => {
                AssetFilterCustomErrorView::RequiredOptionMissing(name@)
            },
            AssetFilterCustomError::InvalidOptionType(name) => {
                AssetFilterCustomErrorView::InvalidOptionType(name@)
            },
            AssetFilterCustomError::RSASSError(err) => AssetFilterCustomErrorView::RSASSError(**err),
            AssetFilterCustomError::ExecutableStatusNotOk(code) => {
                AssetFilterCustomErrorView::ExecutableStatusNotOk(*code)
            },
        }
    }
}

impl From<std::io::Error> for AssetFilterCustomError {
    fn from(err: std::io::Error) -> (r: Self) {
        AssetFilterCustomError::IOError(err)
    }
}

impl vstd::std_specs::convert::FromSpecImpl<std::io::Error> for AssetFilterCustomError {
    open spec fn obeys_from_spec() -> bool {
        true
    }

    open spec fn from_spec(err: std::io::Error) -> Self {
        AssetFilterCustomError::IOError(err)
    }
}

impl From<rsass::Error> for AssetFilterCustomError {
    fn from(err: rsass::Error) -> (r: Self) {
        AssetFilterCustomError::RSASSError(Box::new(err))
    }
}

impl vstd::std_specs::convert::FromSpecImpl<rsass::Error> for AssetFilterCustomError {
    open spec fn obeys_from_spec() -> bool {
        true
    }

    open spec fn from_spec(err: rsass::Error) -> Self {
        AssetFilterCustomError::RSASSError(Box::new(err))
    }
}

} // verus!
