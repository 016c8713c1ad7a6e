//! Export and import of the settings document: the check that an import
//! has to pass, and the text of the error that each step fails with.

use vstd::prelude::*;
use vstd::string::*;
use crate::validation::{
    is_syntax_report, json_document, parse_settings_json, parsed_json, validate_settings_json,
    validated_report,
};

verus! {

/// The steps of an import, in the order in which they run. A step that
/// fails ends the import.
#[derive(Debug, Clone, Copy, PartialEq, Eq, Structural)]
pub enum ImportStep {
    /// The file is read.
    Read,
    /// Its text is read as a JSON document.
    ParseJson,
    /// The document is validated against the schema.
    Validate,
    /// The document is turned into settings.
    Deserialize,
    /// The settings are saved.
    Save,
    /// The settings are loaded again, with their endpoints.
    Reload,
}

/// The steps of an export, in the order in which they run.
#[derive(Debug, Clone, Copy, PartialEq, Eq, Structural)]
pub enum ExportStep {
    /// The settings are turned into text.
    Serialize,
    /// The text is written to the file.
    Write,
}

/// What the error of a failed import step begins with. The report of a
/// validation stands for itself.
pub open spec fn import_prefix(step: ImportStep) -> Seq<char> {
    match step {
        ImportStep::Read => "Failed to read file: "@,
        ImportStep::ParseJson => "Invalid JSON: "@,
        ImportStep::Validate => Seq::empty(),
        ImportStep::Deserialize => "Failed to parse settings: "@,
        ImportStep::Save => "Failed to save settings: "@,
        ImportStep::Reload => "Failed to load settings: "@,
    }
}

/// What the error of a failed export step begins with.
pub open spec fn export_prefix(step: ExportStep) -> Seq<char> {
    match step {
        ExportStep::Serialize => "Failed to serialize settings: "@,
        ExportStep::Write => "Failed to write file: "@,
    }
}

/// The error of an import whose step `step` failed with `detail`.
pub fn import_error(step: ImportStep, detail: &str) -> (text: String)
    ensures
        text@ == import_prefix(step) + detail@,
{
    let prefix = match step {
        ImportStep::Read => "Failed to read file: ",
        ImportStep::ParseJson => "Invalid JSON: ",
        ImportStep::Validate => "",
        ImportStep::Deserialize => "Failed to parse settings: ",
        ImportStep::Save => "Failed to save settings: ",
        ImportStep::Reload => "Failed to load settings: ",
    };
    proof {
        reveal_strlit("");
        assert(""@ =~= Seq::<char>::empty());
    }
    let mut text = prefix.to_owned();
    text.append(detail);
    text
}

/// The error of an export whose step `step` failed with `detail`.
pub fn export_error(step: ExportStep, detail: &str) -> (text: String)
    ensures
        text@ == export_prefix(step) + detail@,
{
    let prefix = match step {
        ExportStep::Serialize => "Failed to serialize settings: ",
        ExportStep::Write => "Failed to write file: ",
    };
    let mut text = prefix.to_owned();
    text.append(detail);
    text
}

/// What the check of a text that is to be imported comes to: a text
/// that is no JSON document is reported as such; a document is accepted, and
/// handed out, if and only if it passes the validation against the schema of
/// the settings.
pub open spec fn import_checked(content: Seq<char>, r: Result<Seq<char>, Seq<char>>) -> bool {
    match parsed_json(content) {
        None => r matches Err(text) && is_syntax_report(text),
        Some(document) => match r {
            Ok(accepted) => accepted == document && validated_report(document, Ok(())),
            Err(text) => validated_report(document, Err(text)),
        },
    }
}

/// Checks the text of a file that is to be imported: it has to be a
/// JSON document, and the document has to pass the validation against the
/// schema of the settings. Only a document that comes back from here is
/// turned into settings and saved.
pub fn check_import(content: &str) -> (r: Result<serde_json::Value, String>)
    ensures
        import_checked(
            content@,
            match r {
                Ok(value) => Ok(json_document(value)),
                Err(text) => Err(text@),
            },
        ),
{
    let document = match parse_settings_json(content) {
        Ok(document) => document,
        Err(text) => {
            return Err(text);
        },
    };
    match validate_settings_json(&document) {
        Ok(()) => Ok(document),
        Err(text) => Err(text),
    }
}

} // verus!
