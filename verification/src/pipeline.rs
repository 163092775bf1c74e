use crate::codegen::{enums_source, generate_enums, EnumModel, EnumSpec};
use crate::defect::defect_message;
use crate::diagnose::find_first_defect;
use crate::error::BairiakError;
use vstd::pervasive::unreached;
use vstd::prelude::*;
use vstd::string::*;

verus! {

/// The line that opens the generated text: it brings in the container and
/// the flag trait.
pub const IMPORTS: &'static str = "use bairiak::{Bairiak, BairiakEnum};";

pub const LINE_BREAK: &'static str = "\n";

// What opens the diagnostic of a failure to read or parse the spec, and of
// a failure to write the output; the cause's description follows.
pub const READ_FAILED: &'static str = "Error reading file: ";

pub const WRITE_FAILED: &'static str = "Error writing file: ";

/// The whole generated text: the import line, a line break, and the text of
/// the enums.
pub open spec fn output_text(enums_text: Seq<char>) -> Seq<char> {
    IMPORTS@ + LINE_BREAK@ + enums_text
}

/// Whether `output` is what generating the whole text from `enums` gives.
pub open spec fn is_output_of(enums: Seq<EnumModel>, output: Result<String, BairiakError>) -> bool {
    match enums_source(enums) {
        Ok(text) => output is Ok && output->Ok_0@ == output_text(text),
        Err(defect) => output == Err::<String, BairiakError>(defect.error()),
    }
}

/// Generates the text of the output file for a spec: the import line and
/// the definitions of all enums, or the error of the first enum that is
/// refused.
pub fn generate_output(enums: &EnumSpec) -> (output: Result<String, BairiakError>)
    ensures
        is_output_of(enums@, output),
{
    match generate_enums(enums) {
        Err(error) => Err(error),
        Ok(enums_code) => {
            let mut output = String::from_str(IMPORTS);
            output.append(LINE_BREAK);
            output.append(enums_code.as_str());
            Ok(output)
        },
    }
}

/// What the driver found when it carried out the last action. A failure
/// carries the description of its cause.
pub enum Event {
    /// Nothing was done yet.
    Started,
    /// The spec source was read; this is its text.
    SpecRead(String),
    /// The spec source could not be read.
    SpecUnreadable(String),
    /// The spec text was parsed into these enums.
    SpecParsed(EnumSpec),
    /// The spec text is malformed.
    SpecMalformed(String),
    /// The generated text was written.
    OutputWritten,
    /// The generated text could not be written.
    OutputUnwritable(String),
}

/// What the driver is to do next.
pub enum Action {
    /// Read the spec source.
    ReadSpec,
    /// Parse this spec text.
    ParseSpec(String),
    /// Write this text to the output.
    WriteOutput(String),
    /// End the run: everything was generated and written.
    Succeed,
    /// Log this diagnostic and end the run with this error.
    Fail(BairiakError, String),
}

/// The rule of the pipeline: read, parse, generate, write, in this order
/// and each once; the first failure ends the run with its own error, and
/// the output is written only when every enum was generated.
pub open spec fn follows(event: Event, action: Action) -> bool {
    match event {
        Event::Started => action == Action::ReadSpec,
        Event::SpecRead(text) => action == Action::ParseSpec(text),
        Event::SpecUnreadable(cause) => action matches Action::Fail(error, diagnostic) && error
            == BairiakError::ReadSpecError && diagnostic@ == READ_FAILED@ + cause@,
        Event::SpecMalformed(cause) => action matches Action::Fail(error, diagnostic) && error
            == BairiakError::DeserializeYamlError && diagnostic@ == READ_FAILED@ + cause@,
        Event::SpecParsed(enums) => match enums_source(enums@) {
            Ok(text) => action matches Action::WriteOutput(output) && output@ == output_text(text),
            Err(defect) => action matches Action::Fail(error, diagnostic) && error
                == defect.error() && diagnostic@ == defect_message(defect),
        },
        Event::OutputWritten => action == Action::Succeed,
        Event::OutputUnwritable(cause) => action matches Action::Fail(error, diagnostic) && error
            == BairiakError::WriteFileError && diagnostic@ == WRITE_FAILED@ + cause@,
    }
}

/// Decides the next action of a run from what the last action gave.
pub fn next_action(event: Event) -> (action: Action)
    ensures
        follows(event, action),
{
    match event {
        Event::Started => Action::ReadSpec,
        Event::SpecRead(text) => Action::ParseSpec(text),
        Event::SpecUnreadable(cause) => {
            let mut diagnostic = String::from_str(READ_FAILED);
            diagnostic.append(cause.as_str());
            Action::Fail(BairiakError::ReadSpecError, diagnostic)
        },
        Event::SpecMalformed(cause) => {
            let mut diagnostic = String::from_str(READ_FAILED);
            diagnostic.append(cause.as_str());
            Action::Fail(BairiakError::DeserializeYamlError, diagnostic)
        },
        Event::SpecParsed(enums) => match generate_output(&enums) {
            Ok(output) => Action::WriteOutput(output),
            Err(error) => match find_first_defect(&enums) {
                Some(defect) => Action::Fail(error, defect.message()),
                None => unreached(),
            },
        },
        Event::OutputWritten => Action::Succeed,
        Event::OutputUnwritable(cause) => {
            let mut diagnostic = String::from_str(WRITE_FAILED);
            diagnostic.append(cause.as_str());
            Action::Fail(BairiakError::WriteFileError, diagnostic)
        },
    }
}

} // verus!
