//! The filter that hands an asset to an external program.
//!
//! The filter itself starts nothing. [`AssetFilterRunExecutable::invocation`]
//! says which program is to be started and with which arguments;
//! [`AssetFilterRunExecutable::output`] says, once the program has ended, what
//! is to be written to the output file, if anything.

use vstd::prelude::*;

use crate::filters::options::optional_text;
use crate::filters::options::optional_texts;
use crate::filters::options::spec_flag;
use crate::filters::options::spec_optional_string;
use crate::filters::options::spec_optional_string_list;
use crate::filters::options::spec_required_string;
use crate::filters::options::texts;
use crate::filters::options::FilterOptionView;
use crate::filters::options::FilterOptions;
use crate::filters::AssetFilterCustomError;
use crate::filters::AssetFilterCustomErrorView;

verus! {

/// Names the program to run. Required; a string.
pub const EXECUTABLE_NAME: &'static str = "executableName";

/// Names the argument that goes before the input path. Optional; a string.
pub const INPUT_FILE_ARGUMENT_NAME: &'static str = "inputFileArgumentName";

/// Names the argument that goes before the output path. Optional; a string.
pub const OUTPUT_FILE_ARGUMENT_NAME: &'static str = "outputFileArgumentName";

/// Arguments that go after the paths. Optional; a list of strings.
pub const EXTRA_ARGUMENTS: &'static str = "extraArguments";

/// When set, the program writes the asset to its standard output and is
/// given no output path. Optional; a flag.
pub const OUTPUT_IS_STDOUT: &'static str = "outputIsStdout";

/// The options of the filter, each checked for its kind.
#[derive(Debug, PartialEq, Eq)]
pub struct RunExecutableOptions {
    pub executable_name: String,
    pub input_file_argument_name: Option<String>,
    pub output_file_argument_name: Option<String>,
    pub extra_arguments: Option<Vec<String>>,
    pub output_is_stdout: bool,
}

/// The mathematical content of [`RunExecutableOptions`].
pub struct RunExecutableOptionsView {
    pub executable_name: Seq<char>,
    pub input_file_argument_name: Option<Seq<char>>,
    pub output_file_argument_name: Option<Seq<char>>,
    pub extra_arguments: Option<Seq<Seq<char>>>,
    pub output_is_stdout: bool,
}

impl View for RunExecutableOptions {
    type V = RunExecutableOptionsView;

    open spec fn view(&self) -> RunExecutableOptionsView {
        RunExecutableOptionsView {
            executable_name: self.executable_name@,
            input_file_argument_name: optional_text(self.input_file_argument_name),
            output_file_argument_name: optional_text(self.output_file_argument_name),
            extra_arguments: optional_texts(self.extra_arguments),
            output_is_stdout: self.output_is_stdout,
        }
    }
}

/// Nothing when `argument` is absent, else `argument` alone.
pub open spec fn zero_or_one(argument: Option<Seq<char>>) -> Seq<Seq<char>> {
    match argument {
        Some(a) => seq![a],
        None => seq![],
    }
}

/// Nothing when `arguments` is absent, else `arguments`.
pub open spec fn zero_or_more(arguments: Option<Seq<Seq<char>>>) -> Seq<Seq<char>> {
    match arguments {
        Some(l) => l,
        None => seq![],
    }
}

impl RunExecutableOptionsView {
    /// The arguments of the program, in order: the input path, after its
    /// name if it has one; unless the program writes to its standard
    /// output, the output path, after its name if it has one; then the extra
    /// arguments.
    pub open spec fn arguments(self, input_file_path: Seq<char>, output_file_path: Seq<char>) -> Seq<
        Seq<char>,
    > {
        zero_or_one(self.input_file_argument_name) + seq![input_file_path] + (if self.output_is_stdout {
            seq![]
        } else {
            zero_or_one(self.output_file_argument_name) + seq![output_file_path]
        }) + zero_or_more(self.extra_arguments)
    }
}

/// The checked options, or the first fault found. The options are checked
/// in the order of the fields of [`RunExecutableOptions`].
pub open spec fn spec_parse(options: Map<Seq<char>, FilterOptionView>) -> Result<
    RunExecutableOptionsView,
    AssetFilterCustomErrorView,
> {
    match spec_required_string(options, EXECUTABLE_NAME@) {
        Err(err) => Err(err),
        Ok(executable_name) => match spec_optional_string(options, INPUT_FILE_ARGUMENT_NAME@) {
            Err(err) => Err(err),
            Ok(input_file_argument_name) => match spec_optional_string(
                options,
                OUTPUT_FILE_ARGUMENT_NAME@,
            ) {
                Err(err) => Err(err),
                Ok(output_file_argument_name) => match spec_optional_string_list(
                    options,
                    EXTRA_ARGUMENTS@,
                ) {
                    Err(err) => Err(err),
                    Ok(extra_arguments) => match spec_flag(options, OUTPUT_IS_STDOUT@) {
                        Err(err) => Err(err),
                        Ok(output_is_stdout) => Ok(
                            RunExecutableOptionsView {
                                executable_name,
                                input_file_argument_name,
                                output_file_argument_name,
                                extra_arguments,
                                output_is_stdout,
                            },
                        ),
                    },
                },
            },
        },
    }
}

impl RunExecutableOptions {
    /// Reads the filter's options out of `options` and checks the kind of
    /// each.
    pub fn parse(options: &FilterOptions) -> (r: Result<Self, AssetFilterCustomError>)
        ensures
            match r {
                Ok(parsed) => spec_parse(options@) matches Ok(v) && v == parsed@,
                Err(err) => spec_parse(options@) matches Err(e) && e == err@,
            },
    {
        let executable_name = options.required_string(EXECUTABLE_NAME)?;
        let input_file_argument_name = options.optional_string(INPUT_FILE_ARGUMENT_NAME)?;
        let output_file_argument_name = options.optional_string(OUTPUT_FILE_ARGUMENT_NAME)?;
        let extra_arguments = options.optional_string_list(EXTRA_ARGUMENTS)?;
        let output_is_stdout = options.flag(OUTPUT_IS_STDOUT)?;
        Ok(
            RunExecutableOptions {
                executable_name,
                input_file_argument_name,
                output_file_argument_name,
                extra_arguments,
                output_is_stdout,
            },
        )
    }

    /// The arguments to start the program with, for the given input and
    /// output paths.
    pub fn arguments(&self, input_file_path: &str, output_file_path: &str) -> (r: Vec<String>)
        ensures
            texts(r@) == self@.arguments(input_file_path@, output_file_path@),
    {
        let mut arguments: Vec<String> = Vec::new();
        assert(texts(arguments@) =~= Seq::<Seq<char>>::empty());
        if let Some(name) = &self.input_file_argument_name {
            arguments.push(name.clone());
        }
        assert(texts(arguments@) =~= zero_or_one(self@.input_file_argument_name));
        arguments.push(input_file_path.to_owned());
        assert(texts(arguments@) =~= zero_or_one(self@.input_file_argument_name)
            + seq![input_file_path@]);
        if !self.output_is_stdout {
            let ghost before = arguments@;
            if let Some(name) = &self.output_file_argument_name {
                arguments.push(name.clone());
            }
            assert(texts(arguments@) =~= texts(before) + zero_or_one(
                self@.output_file_argument_name,
            ));
            arguments.push(output_file_path.to_owned());
            assert(texts(arguments@) =~= texts(before) + (zero_or_one(
                self@.output_file_argument_name,
            ) + seq![output_file_path@]));
        }
        let ghost positional = arguments@;
        assert(texts(positional) =~= zero_or_one(self@.input_file_argument_name)
            + seq![input_file_path@] + (if self.output_is_stdout {
            seq![]
        } else {
            zero_or_one(self@.output_file_argument_name) + seq![output_file_path@]
        }));
        if let Some(extra) = &self.extra_arguments {
            let mut i: usize = 0;
            while i < extra.len()
                invariant
                    i <= extra.len(),
                    texts(arguments@) == texts(positional) + texts(extra@).subrange(0, i as int),
                decreases extra.len() - i,
            {
                let ghost before = arguments@;
                arguments.push(extra[i].clone());
                assert(texts(arguments@) =~= texts(before).push(extra[i as int]@));
                assert(texts(extra@).subrange(0, i + 1) =~= texts(extra@).subrange(0, i as int).push(
                    extra[i as int]@,
                ));
                i += 1;
            }
            assert(texts(extra@).subrange(0, i as int) =~= texts(extra@));
        }
        assert(texts(arguments@) =~= texts(positional) + zero_or_more(self@.extra_arguments));
        arguments
    }
}

/// A program to start.
#[derive(Debug, PartialEq, Eq)]
pub struct Invocation {
    /// The program, as the system is to look it up.
    pub executable_name: String,
    /// Its arguments, in order.
    pub arguments: Vec<String>,
    /// Whether its standard output is to be captured, to become the output
    /// file. When not, the program writes the output file itself.
    pub output_is_stdout: bool,
}

/// The mathematical content of an [`Invocation`].
pub struct InvocationView {
    pub executable_name: Seq<char>,
    pub arguments: Seq<Seq<char>>,
    pub output_is_stdout: bool,
}

impl View for Invocation {
    type V = InvocationView;

    open spec fn view(&self) -> InvocationView {
        InvocationView {
            executable_name: self.executable_name@,
            arguments: texts(self.arguments@),
            output_is_stdout: self.output_is_stdout,
        }
    }
}

/// How a program ended.
#[derive(Debug, PartialEq, Eq)]
pub struct ProcessExit {
    /// Whether it reported success.
    pub success: bool,
    /// Its exit code, absent when a signal ended it.
    pub code: Option<i32>,
    /// What it wrote to its standard output, where that was captured.
    pub stdout: Vec<u8>,
}

/// The program that the filter starts for the given paths and options, or
/// the reason why it starts none. The options are checked first, then the
/// number of inputs.
pub open spec fn spec_invocation(
    input_file_paths: Seq<Seq<char>>,
    output_file_path: Seq<char>,
    options: Map<Seq<char>, FilterOptionView>,
) -> Result<InvocationView, AssetFilterCustomErrorView> {
    match spec_parse(options) {
        Err(err) => Err(err),
        Ok(parsed) => if input_file_paths.len() != 1 {
            Err(AssetFilterCustomErrorView::InvalidInputCount(input_file_paths.len()))
        } else {
            Ok(
                InvocationView {
                    executable_name: parsed.executable_name,
                    arguments: parsed.arguments(input_file_paths[0], output_file_path),
                    output_is_stdout: parsed.output_is_stdout,
                },
            )
        },
    }
}

/// The filter that transforms an asset by running an external program on
/// it.
#[derive(Debug)]
pub struct AssetFilterRunExecutable {}

impl AssetFilterRunExecutable {
    /// The program to start for one asset. Fails, and so starts nothing,
    /// when an option is missing or of the wrong kind, or when there is not
    /// exactly one input file.
    pub fn invocation(
        &self,
        input_file_paths: &[String],
        output_file_path: &str,
        options: &FilterOptions,
    ) -> (r: Result<Invocation, AssetFilterCustomError>)
        ensures
            match r {
                Ok(invocation) => spec_invocation(
                    texts(input_file_paths@),
                    output_file_path@,
                    options@,
                ) matches Ok(v) && v == invocation@,
                Err(err) => spec_invocation(
                    texts(input_file_paths@),
                    output_file_path@,
                    options@,
                ) matches Err(e) && e == err@,
            },
            !options@.contains_key(EXECUTABLE_NAME@) ==> (r matches Err(err) && err@
                == AssetFilterCustomErrorView::RequiredOptionMissing(EXECUTABLE_NAME@)),
            spec_parse(options@) is Ok && input_file_paths@.len() != 1 ==> (r matches Err(err)
                && err@ == AssetFilterCustomErrorView::InvalidInputCount(input_file_paths@.len())),
    {
        let parsed = RunExecutableOptions::parse(options)?;
        if input_file_paths.len() != 1 {
            return Err(AssetFilterCustomError::InvalidInputCount(input_file_paths.len()));
        }
        let arguments = parsed.arguments(input_file_paths[0].as_str(), output_file_path);
        Ok(
            Invocation {
                executable_name: parsed.executable_name,
                arguments,
                output_is_stdout: parsed.output_is_stdout,
            },
        )
    }

    /// What to write to the output file once the program of `invocation`
    /// has ended as `exit` says. A program that did not report success is a
    /// failure whatever it wrote. Of a program that did, the captured
    /// standard output is the content of the output file, byte for byte;
    /// where nothing was captured the result is `None` and the filter writes
    /// nothing: the program was given the output path and wrote the file
    /// itself.
    pub fn output(&self, invocation: &Invocation, exit: ProcessExit) -> (r: Result<
        Option<Vec<u8>>,
        AssetFilterCustomError,
    >)
        ensures
            !exit.success ==> (r matches Err(err) && err@
                == AssetFilterCustomErrorView::ExecutableStatusNotOk(exit.code)),
            exit.success && invocation.output_is_stdout ==> (r matches Ok(Some(content))
                && content@ == exit.stdout@),
            exit.success && !invocation.output_is_stdout ==> r matches Ok(None),
    {
        if !exit.success {
            Err(AssetFilterCustomError::ExecutableStatusNotOk(exit.code))
        } else if invocation.output_is_stdout {
            Ok(Some(exit.stdout))
        } else {
            Ok(None)
        }
    }
}

/// Where the program is not to write to its standard output, the output
/// path is one of its arguments, and the argument before it is the name
/// given for it, if one was given.
pub proof fn lemma_output_path_is_passed(
    options: RunExecutableOptionsView,
    input_file_path: Seq<char>,
    output_file_path: Seq<char>,
)
    requires
        !options.output_is_stdout,
    ensures
        ({
            let arguments = options.arguments(input_file_path, output_file_path);
            let at = zero_or_one(options.input_file_argument_name).len() + 1 + zero_or_one(
                options.output_file_argument_name,
            ).len();
            &&& at < arguments.len()
            &&& arguments[at as int] == output_file_path
            &&& options.output_file_argument_name matches Some(name) ==> arguments[at - 1] == name
        }),
{
}

/// The input path is one of the program's arguments, and the argument
/// before it is the name given for it, if one was given.
pub proof fn lemma_input_path_is_passed(
    options: RunExecutableOptionsView,
    input_file_path: Seq<char>,
    output_file_path: Seq<char>,
)
    ensures
        ({
            let arguments = options.arguments(input_file_path, output_file_path);
            let at = zero_or_one(options.input_file_argument_name).len();
            &&& at < arguments.len()
            &&& arguments[at as int] == input_file_path
            &&& options.input_file_argument_name matches Some(name) ==> arguments[0] == name
        }),
{
}

/// The extra arguments come last, in the order in which they were given.
pub proof fn lemma_extra_arguments_come_last(
    options: RunExecutableOptionsView,
    input_file_path: Seq<char>,
    output_file_path: Seq<char>,
)
    ensures
        ({
            let arguments = options.arguments(input_file_path, output_file_path);
            let extra = zero_or_more(options.extra_arguments);
            &&& extra.len() <= arguments.len()
            &&& arguments.subrange(arguments.len() - extra.len(), arguments.len() as int) == extra
        }),
{
    let arguments = options.arguments(input_file_path, output_file_path);
    let extra = zero_or_more(options.extra_arguments);
    assert(arguments.subrange(arguments.len() - extra.len(), arguments.len() as int) =~= extra);
}

} // verus!
