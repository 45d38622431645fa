//! The filter that compiles a stylesheet.
//!
//! The filter reads, compiles and writes nothing itself: the compiler opens
//! the files that a stylesheet imports, so running it is the caller's part,
//! between the read and the write. [`AssetFilterSCSS::input_file_path`] says
//! which file is to be read; [`AssetFilterSCSS::compiled`] says what the
//! filter makes of the compiler's answer.

use vstd::prelude::*;

use crate::filters::AssetFilterCustomError;
use crate::filters::AssetFilterCustomErrorView;

verus! {

/// How verbose the compiled stylesheet is.
#[derive(Clone, Copy, Debug, PartialEq, Eq, Structural)]
pub enum Style {
    /// Readable: one declaration per line.
    Expanded,
    /// As short as possible.
    Compressed,
    /// The form in which the compiler shows a value for inspection.
    Introspection,
}

/// The format of the compiled stylesheet.
#[derive(Clone, Copy, Debug)]
pub struct Format {
    pub style: Style,
    /// The number of decimals in numeric output.
    pub precision: usize,
}

/// The filter that compiles a stylesheet source into CSS. Its only setting
/// is the format in which the compiler is to write, fixed when the filter is
/// made; the options of an invocation are not consulted.
#[derive(Debug)]
pub struct AssetFilterSCSS {
    pub format: Format,
}

impl AssetFilterSCSS {
    /// The file to read and compile: the only input. Fails, before anything
    /// is read, when there is not exactly one input file.
    pub fn input_file_path<'a, P>(&self, input_file_paths: &'a [P]) -> (r: Result<
        &'a P,
        AssetFilterCustomError,
    >)
        ensures
            input_file_paths@.len() == 1 ==> (r matches Ok(path) && *path == input_file_paths@[0]),
            input_file_paths@.len() != 1 ==> (r matches Err(err) && err@
                == AssetFilterCustomErrorView::InvalidInputCount(input_file_paths@.len())),
    {
        if input_file_paths.len() != 1 {
            return Err(AssetFilterCustomError::InvalidInputCount(input_file_paths.len()));
        }
        Ok(&input_file_paths[0])
    }

    /// What the filter makes of the compiler's answer: the compiled bytes as
    /// they are, to be written to the output file, or the compiler's error
    /// as the filter's own.
    pub fn compiled(result: Result<Vec<u8>, rsass::Error>) -> (r: Result<
        Vec<u8>,
        AssetFilterCustomError,
    >)
        ensures
            match result {
                Ok(css) => r matches Ok(content) && content@ == css@,
                Err(failure) => r matches Err(err) && err@ == AssetFilterCustomErrorView::RSASSError(
                    failure,
                ),
            },
    {
        match result {
            Ok(css) => Ok(css),
            Err(failure) => Err(AssetFilterCustomError::from(failure)),
        }
    }
}

} // verus!
