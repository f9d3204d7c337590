//! The format command: find the grammar of an input, read it, and print it
//! again in that grammar's pretty form.

use crate::commands::error::{Failure, FormatError};
use crate::commands::kind::{lemma_tag_names_its_format, Format};
use crate::grammar::json::{json_error_text, json_parsed, json_printed};
use crate::grammar::toml::{
    toml_parsed,
    toml_printed,
    toml_read_error_text,
    toml_write_error_text,
};
use crate::grammar::yaml::{yaml_error_text, yaml_parsed, yaml_printed};
use crate::path::{extension, extension_of, names_regular_file};
use vstd::prelude::*;
use vstd::string::*;

verus! {

/// Whether the parser of `format` accepts `text` as a whole.
pub open spec fn accepts(format: Format, text: Seq<char>) -> bool {
    match format {
        Format::Json => json_parsed(text) is Ok,
        Format::Toml => toml_parsed(text) is Ok,
        Format::Yaml => yaml_parsed(text) is Ok,
    }
}

/// `text` read in `format` and printed again in it: the printer's text, or
/// the failure of the step that refused.
pub open spec fn rendered(format: Format, text: Seq<char>) -> Result<Seq<char>, Failure> {
    match format {
        Format::Json => match json_parsed(text) {
            Err(e) => Err(Failure::Invalid { format, detail: json_error_text(e) }),
            Ok(doc) => match json_printed(doc) {
                Ok(pretty) => Ok(pretty),
                Err(e) => Err(Failure::Unprintable { format, detail: json_error_text(e) }),
            },
        },
        Format::Toml => match toml_parsed(text) {
            Err(e) => Err(Failure::Invalid { format, detail: toml_read_error_text(e) }),
            Ok(doc) => match toml_printed(doc) {
                Ok(pretty) => Ok(pretty),
                Err(e) => Err(Failure::Unprintable { format, detail: toml_write_error_text(e) }),
            },
        },
        Format::Yaml => match yaml_parsed(text) {
            Err(e) => Err(Failure::Invalid { format, detail: yaml_error_text(e) }),
            Ok(doc) => match yaml_printed(doc) {
                Ok(pretty) => Ok(pretty),
                Err(e) => Err(Failure::Unprintable { format, detail: yaml_error_text(e) }),
            },
        },
    }
}

/// `text` rendered in the grammar that `tag` names; a tag that names none is
/// an unsupported file type.
pub open spec fn rendered_as(tag: Seq<char>, text: Seq<char>) -> Result<Seq<char>, Failure> {
    match Format::spec_from_tag(tag) {
        Some(format) => rendered(format, text),
        None => Err(Failure::UnsupportedFileType),
    }
}

/// The grammar of an inline text: the first of JSON, TOML, YAML, in that
/// order, whose parser accepts it.
pub open spec fn detected(text: Seq<char>) -> Option<Format> {
    if accepts(Format::Json, text) {
        Some(Format::Json)
    } else if accepts(Format::Toml, text) {
        Some(Format::Toml)
    } else if accepts(Format::Yaml, text) {
        Some(Format::Yaml)
    } else {
        None
    }
}

/// A result of formatting with its texts as sequences of characters.
pub open spec fn outcome(r: Result<String, FormatError>) -> Result<Seq<char>, Failure> {
    match r {
        Ok(text) => Ok(text@),
        Err(error) => Err(error@),
    }
}

/// Where a formatted text goes.
#[derive(Clone, Copy, Debug, PartialEq, Eq, Structural)]
pub enum Sink {
    /// Over the file that the input names.
    File,
    /// To standard output, as one line.
    Stdout,
}

/// A formatted text and where it goes.
#[derive(Debug, PartialEq, Eq)]
pub struct Formatted {
    pub text: String,
    pub sink: Sink,
}

/// An input and what it was found to be. `is_file` is `Some(true)` where the
/// input is the path of a file; anything else makes it inline text.
#[derive(Debug, PartialEq, Eq)]
pub struct FormatCommand {
    pub input: String,
    pub is_file: Option<bool>,
}

impl FormatCommand {
    /// Whether the input is the path of a file.
    pub open spec fn reads_file(&self) -> bool {
        self.is_file == Some(true)
    }

    /// The grammar of the input. A file's extension decides for it, and its
    /// contents are not looked at; inline text is tried against the grammars.
    pub open spec fn format_of(&self) -> Option<Format> {
        if self.reads_file() {
            Format::spec_from_tag(extension_of(self.input@))
        } else {
            detected(self.input@)
        }
    }

    /// The text that is formatted: what the file holds, or the input itself.
    pub open spec fn contents(&self, file_text: Seq<char>) -> Seq<char> {
        if self.reads_file() {
            file_text
        } else {
            self.input@
        }
    }

    /// Where the formatted text goes: back to the file, or to standard output.
    pub open spec fn sink(&self) -> Sink {
        if self.reads_file() {
            Sink::File
        } else {
            Sink::Stdout
        }
    }

    /// The whole run: the contents rendered in the grammar of the input.
    pub open spec fn formatted(&self, file_text: Seq<char>) -> Result<Seq<char>, Failure> {
        match self.format_of() {
            Some(format) => rendered(format, self.contents(file_text)),
            None => Err(Failure::UnsupportedInput),
        }
    }

    /// Takes an input and finds out once whether it names a file.
    pub fn new(input: String) -> (r: Self)
        ensures
            r.input == input,
            r.is_file is Some,
    {
        let mut command = FormatCommand { input, is_file: None };
        command.set_is_file();
        command
    }

    /// Asks the file system whether the input names a regular file, and keeps
    /// the answer.
    pub fn set_is_file(&mut self)
        ensures
            final(self).input == old(self).input,
            final(self).is_file is Some,
    {
        let found = names_regular_file(self.input.as_str());
        self.classify(found);
    }

    /// Keeps `is_file` as the answer to whether the input names a file.
    pub fn classify(&mut self, is_file: bool)
        ensures
            final(self).input == old(self).input,
            final(self).is_file == Some(is_file),
    {
        self.is_file = Some(is_file);
    }

    /// Whether the input is the path of a file.
    pub fn is_file_input(&self) -> (r: bool)
        ensures
            r == self.reads_file(),
    {
        match self.is_file {
            Some(found) => found,
            None => false,
        }
    }

    /// Reads `contents` as JSON and prints it again, pretty.
    pub fn format_json(&self, contents: &str) -> (r: Result<String, FormatError>)
        ensures
            outcome(r) == rendered(Format::Json, contents@),
    {
        match crate::grammar::json::parse(contents) {
            Ok(doc) => match crate::grammar::json::print(&doc) {
                Ok(pretty) => Ok(pretty),
                Err(e) => Err(
                    FormatError::Unprintable {
                        format: Format::Json,
                        detail: crate::grammar::json::error_text(&e),
                    },
                ),
            },
            Err(e) => Err(
                FormatError::Invalid {
                    format: Format::Json,
                    detail: crate::grammar::json::error_text(&e),
                },
            ),
        }
    }

    /// Reads `contents` as YAML and prints it again in block form.
    pub fn format_yaml(&self, contents: &str) -> (r: Result<String, FormatError>)
        ensures
            outcome(r) == rendered(Format::Yaml, contents@),
    {
        match crate::grammar::yaml::parse(contents) {
            Ok(doc) => match crate::grammar::yaml::print(&doc) {
                Ok(pretty) => Ok(pretty),
                Err(e) => Err(
                    FormatError::Unprintable {
                        format: Format::Yaml,
                        detail: crate::grammar::yaml::error_text(&e),
                    },
                ),
            },
            Err(e) => Err(
                FormatError::Invalid {
                    format: Format::Yaml,
                    detail: crate::grammar::yaml::error_text(&e),
                },
            ),
        }
    }

    /// Reads `contents` as TOML and prints it again, pretty.
    pub fn format_toml(&self, contents: &str) -> (r: Result<String, FormatError>)
        ensures
            outcome(r) == rendered(Format::Toml, contents@),
    {
        match crate::grammar::toml::parse(contents) {
            Ok(doc) => match crate::grammar::toml::print(&doc) {
                Ok(pretty) => Ok(pretty),
                Err(e) => Err(
                    FormatError::Unprintable {
                        format: Format::Toml,
                        detail: crate::grammar::toml::write_error_text(&e),
                    },
                ),
            },
            Err(e) => Err(
                FormatError::Invalid {
                    format: Format::Toml,
                    detail: crate::grammar::toml::read_error_text(&e),
                },
            ),
        }
    }

    /// The tag of the input's grammar. For a file it is the extension, taken
    /// as it stands; for inline text, the tag of the first grammar that
    /// accepts it. An input with no grammar is unsupported.
    pub fn get_file_type(&self) -> (r: Result<String, FormatError>)
        ensures
            match self.format_of() {
                Some(format) => outcome(r) == Ok::<Seq<char>, Failure>(format.spec_tag()),
                None => outcome(r) == Err::<Seq<char>, Failure>(Failure::UnsupportedInput),
            },
    {
        if self.is_file_input() {
            let file_extension = extension(self.input.as_str());
            match Format::from_tag(file_extension.as_str()) {
                Some(_) => Ok(file_extension),
                None => Err(FormatError::UnsupportedInput),
            }
        } else {
            let text = self.input.as_str();
            if crate::grammar::json::parse(text).is_ok() {
                Ok(String::from_str(Format::Json.tag()))
            } else if crate::grammar::toml::parse(text).is_ok() {
                Ok(String::from_str(Format::Toml.tag()))
            } else if crate::grammar::yaml::parse(text).is_ok() {
                Ok(String::from_str(Format::Yaml.tag()))
            } else {
                Err(FormatError::UnsupportedInput)
            }
        }
    }

    /// Renders `contents` in the grammar that `file_type` names.
    pub fn format_contents(&self, file_type: &str, contents: &str) -> (r: Result<String, FormatError>)
        ensures
            outcome(r) == rendered_as(file_type@, contents@),
    {
        match Format::from_tag(file_type) {
            Some(Format::Json) => self.format_json(contents),
            Some(Format::Toml) => self.format_toml(contents),
            Some(Format::Yaml) => self.format_yaml(contents),
            None => Err(FormatError::UnsupportedFileType),
        }
    }

    /// The whole run but for reading and writing. `file_text` is what the
    /// file holds; inline input is formatted itself and `file_text` is not
    /// looked at. The result says where the text goes.
    pub fn format(&self, file_text: &str) -> (r: Result<Formatted, FormatError>)
        ensures
            match r {
                Ok(done) => self.formatted(file_text@) == Ok::<Seq<char>, Failure>(done.text@)
                    && done.sink == self.sink(),
                Err(error) => self.formatted(file_text@) == Err::<Seq<char>, Failure>(error@),
            },
    {
        let file_type = match self.get_file_type() {
            Ok(tag) => tag,
            Err(error) => {
                return Err(error);
            },
        };
        proof {
            lemma_tag_names_its_format(self.format_of()->0);
        }
        if self.is_file_input() {
            match self.format_contents(file_type.as_str(), file_text) {
                Ok(text) => Ok(Formatted { text, sink: Sink::File }),
                Err(error) => Err(error),
            }
        } else {
            match self.format_contents(file_type.as_str(), self.input.as_str()) {
                Ok(text) => Ok(Formatted { text, sink: Sink::Stdout }),
                Err(error) => Err(error),
            }
        }
    }
}

/// Detection order. Inline text that some grammar accepts is formatted in the
/// earliest grammar that accepts it, in the order JSON, TOML, YAML, whatever
/// later grammars make of it.
pub proof fn lemma_detection_order(command: FormatCommand, file_text: Seq<char>, format: Format)
    requires
        !command.reads_file(),
        accepts(format, command.input@),
    ensures
        command.format_of() is Some,
        accepts(command.format_of()->0, command.input@),
        command.format_of()->0.rank() <= format.rank(),
        forall|other: Format|
            other.rank() < command.format_of()->0.rank() ==> !accepts(other, command.input@),
        command.formatted(file_text) == rendered(command.format_of()->0, command.input@),
{
}

/// Inline text that no grammar accepts is unsupported input.
pub proof fn lemma_no_grammar_is_unsupported(command: FormatCommand, file_text: Seq<char>)
    requires
        !command.reads_file(),
        forall|format: Format| !accepts(format, command.input@),
    ensures
        command.formatted(file_text) == Err::<Seq<char>, Failure>(Failure::UnsupportedInput),
{
    assert(!accepts(Format::Json, command.input@));
    assert(!accepts(Format::Toml, command.input@));
    assert(!accepts(Format::Yaml, command.input@));
}

/// The extension has the last word. A file whose extension is the tag of a
/// grammar is read in that grammar alone: contents that break it are invalid
/// in it, whatever the other grammars would make of them, and the path plays
/// no part but through its extension.
pub proof fn lemma_extension_decides(command: FormatCommand, file_text: Seq<char>, format: Format)
    requires
        command.reads_file(),
        extension_of(command.input@) == format.spec_tag(),
    ensures
        command.format_of() == Some(format),
        command.formatted(file_text) == rendered(format, file_text),
        !accepts(format, file_text) ==> (command.formatted(file_text) matches Err(
            Failure::Invalid { format: broken, .. },
        ) && broken == format),
{
    lemma_tag_names_its_format(format);
}

/// A file whose extension is none of the three tags is unsupported, whatever
/// it holds.
pub proof fn lemma_other_extension_is_unsupported(command: FormatCommand, file_text: Seq<char>)
    requires
        command.reads_file(),
        forall|format: Format| extension_of(command.input@) != format.spec_tag(),
    ensures
        command.formatted(file_text) == Err::<Seq<char>, Failure>(Failure::UnsupportedInput),
{
    assert(extension_of(command.input@) != Format::Json.spec_tag());
    assert(extension_of(command.input@) != Format::Toml.spec_tag());
    assert(extension_of(command.input@) != Format::Yaml.spec_tag());
}

/// No conversion. A run that succeeds has read the contents in the grammar of
/// the input and printed them in that same grammar; one that fails names that
/// grammar or none, and a run never ends in an unsupported file type.
pub proof fn lemma_output_keeps_format(command: FormatCommand, file_text: Seq<char>)
    ensures
        command.formatted(file_text) is Ok ==> command.format_of() is Some && accepts(
            command.format_of()->0,
            command.contents(file_text),
        ) && command.formatted(file_text) == rendered(
            command.format_of()->0,
            command.contents(file_text),
        ),
        command.formatted(file_text) matches Err(Failure::Invalid { format, .. })
            ==> command.format_of() == Some(format),
        command.formatted(file_text) matches Err(Failure::Unprintable { format, .. })
            ==> command.format_of() == Some(format),
        command.formatted(file_text) != Err::<Seq<char>, Failure>(Failure::UnsupportedFileType),
{
}

} // verus!
