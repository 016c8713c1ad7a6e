//! Validation of an externally supplied settings document against the
//! schema of the settings file, before the document is accepted.

use vstd::prelude::*;
use vstd::string::*;

verus! {

/// The schema of the settings document. Every field has a default, so an
/// empty object is a valid document; a field of the wrong type is not.
pub const SETTINGS_SCHEMA: &'static str = "{\"title\":\"SettingsFile\",\"type\":\"object\",\"properties\":{\
    \"version\":{\"type\":\"integer\",\"minimum\":0,\"maximum\":4294967295},\
    \"config\":{\"$ref\":\"#/$defs/AppConfig\"},\
    \"customEndpoints\":{\"type\":\"array\",\"items\":{\"$ref\":\"#/$defs/CustomEndpoint\"}},\
    \"fslogixPathStates\":{\"type\":\"array\",\"items\":{\"$ref\":\"#/$defs/FSLogixPathState\"}}\
    },\"$defs\":{\
    \"AppConfig\":{\"type\":\"object\",\"properties\":{\
    \"mode\":{\"$ref\":\"#/$defs/AppMode\"},\
    \"testInterval\":{\"type\":\"integer\",\"minimum\":0,\"maximum\":4294967295},\
    \"retentionDays\":{\"type\":\"integer\",\"minimum\":0,\"maximum\":4294967295},\
    \"thresholds\":{\"$ref\":\"#/$defs/LatencyThresholds\"},\
    \"notificationsEnabled\":{\"type\":\"boolean\"},\
    \"autoStart\":{\"type\":\"boolean\"},\
    \"theme\":{\"type\":\"string\"},\
    \"alertThreshold\":{\"type\":\"integer\",\"minimum\":0,\"maximum\":4294967295},\
    \"alertCooldown\":{\"type\":\"integer\",\"minimum\":0,\"maximum\":4294967295},\
    \"graphTimeRange\":{\"type\":\"integer\",\"minimum\":0,\"maximum\":4294967295}\
    }},\
    \"AppMode\":{\"type\":\"string\",\"enum\":[\"sessionhost\",\"enduser\"]},\
    \"LatencyThresholds\":{\"type\":\"object\",\"properties\":{\
    \"excellent\":{\"type\":\"integer\",\"minimum\":0,\"maximum\":4294967295},\
    \"good\":{\"type\":\"integer\",\"minimum\":0,\"maximum\":4294967295},\
    \"warning\":{\"type\":\"integer\",\"minimum\":0,\"maximum\":4294967295}\
    },\"required\":[\"excellent\",\"good\",\"warning\"]},\
    \"CustomEndpoint\":{\"type\":\"object\",\"properties\":{\
    \"id\":{\"type\":\"string\"},\
    \"name\":{\"type\":\"string\"},\
    \"url\":{\"type\":\"string\"},\
    \"port\":{\"type\":[\"integer\",\"null\"],\"minimum\":0,\"maximum\":65535},\
    \"protocol\":{\"type\":[\"string\",\"null\"]},\
    \"category\":{\"type\":[\"string\",\"null\"]},\
    \"enabled\":{\"type\":\"boolean\"},\
    \"latencyCritical\":{\"type\":\"boolean\"}\
    },\"required\":[\"id\",\"name\",\"url\"]},\
    \"FSLogixPathState\":{\"type\":\"object\",\"properties\":{\
    \"id\":{\"type\":\"string\"},\
    \"muted\":{\"type\":\"boolean\"}\
    },\"required\":[\"id\",\"muted\"]}\
    }}";

/// A JSON document of `serde_json`. Nothing is known of what it holds.
#[verifier::external_type_specification]
#[verifier::external_body]
pub struct ExValue(serde_json::Value);

/// The error of `serde_json` for a text that is no JSON document.
#[verifier::external_type_specification]
#[verifier::external_body]
pub struct ExJsonError(serde_json::Error);

/// The error of `jsonschema` for a schema that cannot be compiled or a
/// document that violates one.
#[verifier::external_type_specification]
#[verifier::external_body]
pub struct ExValidationError<'a>(jsonschema::ValidationError<'a>);

/// A compiled schema: it holds a `jsonschema::Validator`, of which nothing
/// is known.
#[verifier::external_body]
pub struct SchemaValidator {
    inner: jsonschema::Validator,
}

/// One violation of the schema: where in the document, and what.
#[derive(Debug, PartialEq, Eq)]
pub struct SchemaIssue {
    /// JSON pointer to the offending part of the document.
    pub path: String,
    pub message: String,
}

/// View of a [`SchemaIssue`].
pub struct SchemaIssueView {
    pub path: Seq<char>,
    pub message: Seq<char>,
}

impl View for SchemaIssue {
    type V = SchemaIssueView;

    open spec fn view(&self) -> SchemaIssueView {
        SchemaIssueView { path: self.path@, message: self.message@ }
    }
}

impl DeepView for SchemaIssue {
    type V = SchemaIssueView;

    open spec fn deep_view(&self) -> SchemaIssueView {
        self.view()
    }
}

/// The document that a value holds, as the compact JSON text that its
/// `Display` prints.
pub uninterp spec fn json_document(value: serde_json::Value) -> Seq<char>;

/// The schema document that a validator was compiled from.
pub uninterp spec fn compiled_schema(validator: SchemaValidator) -> Seq<char>;

/// The document that `serde_json::from_str` reads from a text; `None`
/// where the text is no JSON document.
pub uninterp spec fn parsed_json(text: Seq<char>) -> Option<Seq<char>>;

/// Whether `jsonschema::validator_for` compiles a schema document.
pub uninterp spec fn schema_compiles(schema: Seq<char>) -> bool;

/// Whether a validator compiled from `schema` finds `document` valid, as
/// `Validator::is_valid` answers.
pub uninterp spec fn schema_accepts(schema: Seq<char>, document: Seq<char>) -> bool;

/// Calls `serde_json::from_str` for a `Value`. The contract only names
/// the outcome: whether the text is read, and the document read from it, are
/// functions of the text.
#[verifier::external_body]
pub(crate) fn parse_json(text: &str) -> (r: Result<serde_json::Value, serde_json::Error>)
    ensures
        match r {
            Ok(value) => parsed_json(text@) == Some(json_document(value)),
            Err(_) => parsed_json(text@) is None,
        },
{
    serde_json::from_str::<serde_json::Value>(text)
}

/// The text of an error of `serde_json`, by its `Display`. Nothing is
/// claimed of the text.
#[verifier::external_body]
pub(crate) fn json_error_text(e: &serde_json::Error) -> (text: String) {
    e.to_string()
}

/// Calls `jsonschema::validator_for`, which compiles a schema with the
/// default options. The contract only names the outcome: whether the schema
/// compiles is a function of the schema document, and the validator is made
/// from that document. The crate is built without its retrievers, so a
/// reference out of the document is an error and nothing is fetched.
#[verifier::external_body]
pub(crate) fn compile_schema(schema: &serde_json::Value) -> (r: Result<
    SchemaValidator,
    jsonschema::ValidationError<'static>,
>)
    ensures
        match r {
            Ok(validator) => schema_compiles(json_document(*schema)) && compiled_schema(validator)
                == json_document(*schema),
            Err(_) => !schema_compiles(json_document(*schema)),
        },
{
    match jsonschema::validator_for(schema) {
        Ok(inner) => Ok(SchemaValidator { inner }),
        Err(e) => Err(e),
    }
}

/// The text of an error of `jsonschema`, by its `Display`. Nothing is
/// claimed of the text.
#[verifier::external_body]
pub(crate) fn schema_error_text(e: &jsonschema::ValidationError<'static>) -> (text: String) {
    e.to_string()
}

/// Calls `Validator::is_valid`. The contract only names the answer, a
/// function of the schema and the document.
#[verifier::external_body]
pub(crate) fn is_valid(validator: &SchemaValidator, instance: &serde_json::Value) -> (valid: bool)
    ensures
        valid == schema_accepts(compiled_schema(*validator), json_document(*instance)),
{
    validator.inner.is_valid(instance)
}

/// Calls `Validator::iter_errors` and hands out each error as its
/// instance path and its text. Nothing is claimed of the list: which errors
/// the validator lists for a document, and in which order, is its own
/// matter.
#[verifier::external_body]
pub(crate) fn collect_issues(validator: &SchemaValidator, instance: &serde_json::Value) -> (issues:
    Vec<SchemaIssue>) {
    validator.inner.iter_errors(instance).map(
        |e| SchemaIssue { path: e.instance_path().to_string(), message: e.to_string() },
    ).collect()
}

/// The line of the report for one violation.
pub open spec fn issue_line(issue: SchemaIssueView) -> Seq<char> {
    "  - "@ + issue.path + ": "@ + issue.message
}

/// The lines of the violations, one below the other.
pub open spec fn issue_lines(issues: Seq<SchemaIssueView>) -> Seq<char>
    decreases issues.len(),
{
    if issues.len() == 0 {
        Seq::empty()
    } else if issues.len() == 1 {
        issue_line(issues[0])
    } else {
        issue_lines(issues.drop_last()) + "\n"@ + issue_line(issues.last())
    }
}

/// The report of a document that violates the schema: a heading, then one
/// line for each violation.
pub open spec fn validation_report(issues: Seq<SchemaIssueView>) -> Seq<char> {
    "Settings validation failed:\n"@ + issue_lines(issues)
}

/// The report of a schema that cannot be used.
pub open spec fn schema_report(defect: Seq<char>) -> Seq<char> {
    "Invalid schema: "@ + defect
}

/// The report of a text that is no JSON document.
pub open spec fn syntax_report(defect: Seq<char>) -> Seq<char> {
    "Invalid JSON: "@ + defect
}

/// Why a settings document is not accepted.
#[derive(Debug, PartialEq, Eq)]
pub enum ValidationFailure {
    /// The schema cannot be used; the text says why.
    UnusableSchema(String),
    /// The document violates the schema in these places.
    Violations(Vec<SchemaIssue>),
}

/// View of a [`ValidationFailure`].
pub enum ValidationFailureView {
    UnusableSchema(Seq<char>),
    Violations(Seq<SchemaIssueView>),
}

impl View for ValidationFailure {
    type V = ValidationFailureView;

    open spec fn view(&self) -> ValidationFailureView {
        match self {
            ValidationFailure::UnusableSchema(defect) => ValidationFailureView::UnusableSchema(
                defect@,
            ),
            ValidationFailure::Violations(issues) => ValidationFailureView::Violations(
                issues.deep_view(),
            ),
        }
    }
}

/// The report of an error.
pub open spec fn error_report(e: ValidationFailureView) -> Seq<char> {
    match e {
        ValidationFailureView::UnusableSchema(defect) => schema_report(defect),
        ValidationFailureView::Violations(issues) => validation_report(issues),
    }
}

fn report_violations(issues: &Vec<SchemaIssue>) -> (report: String)
    ensures
        report@ == validation_report(issues.deep_view()),
{
    let mut report = "Settings validation failed:\n".to_string();
    let ghost heading = report@;
    let mut i: usize = 0;
    assert(issues.deep_view().take(0) =~= Seq::empty());
    assert(report@ =~= heading + issue_lines(issues.deep_view().take(0)));
    while i < issues.len()
        invariant
            i <= issues.len(),
            heading == "Settings validation failed:\n"@,
            report@ == heading + issue_lines(issues.deep_view().take(i as int)),
        decreases issues.len() - i,
    {
        let ghost before = issue_lines(issues.deep_view().take(i as int));
        proof {
            let next = issues.deep_view().take(i + 1);
            assert(next.drop_last() =~= issues.deep_view().take(i as int));
            assert(next.last() == issues[i as int]@);
            assert(next[0] == issues.deep_view()[0]);
        }
        if i > 0 {
            report.append("\n");
        }
        report.append("  - ");
        report.append(issues[i].path.as_str());
        report.append(": ");
        report.append(issues[i].message.as_str());
        proof {
            let line = issue_line(issues[i as int]@);
            if i > 0 {
                assert(report@ =~= heading + (before + "\n"@ + line));
            } else {
                assert(before =~= Seq::empty());
                assert(report@ =~= heading + line);
            }
        }
        i += 1;
    }
    proof {
        assert(issues.deep_view().take(i as int) =~= issues.deep_view());
    }
    report
}

impl ValidationFailure {
    /// The report of the error: for violations a heading and one line for
    /// each, with the path to the offending part of the document.
    pub fn message(&self) -> (report: String)
        ensures
            report@ == error_report(self@),
    {
        match self {
            ValidationFailure::UnusableSchema(defect) => {
                let mut report = "Invalid schema: ".to_string();
                report.append(defect.as_str());
                report
            },
            ValidationFailure::Violations(issues) => report_violations(issues),
        }
    }
}

/// The outcome of a validation that found the document valid or not, with
/// the violations found.
pub open spec fn outcome_of(valid: bool, issues: Seq<SchemaIssueView>) -> Result<
    (),
    ValidationFailureView,
> {
    if valid {
        Ok(())
    } else {
        Err(ValidationFailureView::Violations(issues))
    }
}

/// View of the outcome of a validation.
pub open spec fn outcome_view(r: Result<(), ValidationFailure>) -> Result<
    (),
    ValidationFailureView,
> {
    match r {
        Ok(()) => Ok(()),
        Err(e) => Err(e@),
    }
}

/// View of the outcome of a validation whose error is a report.
pub open spec fn report_view(r: Result<(), String>) -> Result<(), Seq<char>> {
    match r {
        Ok(()) => Ok(()),
        Err(text) => Err(text@),
    }
}

/// The outcome of a validation: acceptance of a valid document, else the
/// violations.
pub fn validation_outcome(valid: bool, issues: Vec<SchemaIssue>) -> (r: Result<
    (),
    ValidationFailure,
>)
    ensures
        outcome_view(r) == outcome_of(valid, issues.deep_view()),
{
    if valid {
        Ok(())
    } else {
        Err(ValidationFailure::Violations(issues))
    }
}

/// Whether a text is the report of a text that is no JSON document.
pub open spec fn is_syntax_report(text: Seq<char>) -> bool {
    exists|defect: Seq<char>| text == #[trigger] syntax_report(defect)
}

/// The schema of the settings as a document, where its text can be read
/// and compiled.
pub open spec fn settings_schema() -> Option<Seq<char>> {
    match parsed_json(SETTINGS_SCHEMA@) {
        Some(schema) => if schema_compiles(schema) {
            Some(schema)
        } else {
            None
        },
        None => None,
    }
}

/// What the validation of a document comes to: it is accepted if and only
/// if the validator of the settings schema finds it valid, and else the
/// error holds violations; where the schema cannot be used, the error says
/// so.
pub open spec fn validated(document: Seq<char>, r: Result<(), ValidationFailureView>) -> bool {
    match settings_schema() {
        Some(schema) => match r {
            Ok(()) => schema_accepts(schema, document),
            Err(e) => !schema_accepts(schema, document) && e is Violations,
        },
        None => r matches Err(e) && e is UnusableSchema,
    }
}

/// What the validation of a document comes to where the error is handed
/// out as its report.
pub open spec fn validated_report(document: Seq<char>, r: Result<(), Seq<char>>) -> bool {
    match r {
        Ok(()) => validated(document, Ok(())),
        Err(text) => exists|e: ValidationFailureView|
            validated(document, Err(e)) && text == #[trigger] error_report(e),
    }
}

/// Compiles the schema of the settings document.
pub fn settings_validator() -> (r: Result<SchemaValidator, ValidationFailure>)
    ensures
        match r {
            Ok(validator) => settings_schema() == Some(compiled_schema(validator)),
            Err(e) => settings_schema() is None && e is UnusableSchema,
        },
{
    let schema = match parse_json(SETTINGS_SCHEMA) {
        Ok(schema) => schema,
        Err(e) => {
            return Err(ValidationFailure::UnusableSchema(json_error_text(&e)));
        },
    };
    match compile_schema(&schema) {
        Ok(validator) => Ok(validator),
        Err(e) => Err(ValidationFailure::UnusableSchema(schema_error_text(&e))),
    }
}

/// Validates a settings document against the schema. The document is
/// accepted if and only if the validator finds it valid; else the error
/// holds the violations that the validator lists, each with the path to the
/// offending part of the document.
pub fn validate_settings(json_value: &serde_json::Value) -> (r: Result<(), ValidationFailure>)
    ensures
        validated(json_document(*json_value), outcome_view(r)),
{
    let validator = match settings_validator() {
        Ok(validator) => validator,
        Err(e) => {
            return Err(e);
        },
    };
    let valid = is_valid(&validator, json_value);
    let issues = if valid {
        Vec::new()
    } else {
        collect_issues(&validator, json_value)
    };
    validation_outcome(valid, issues)
}

/// Validates a settings document against the schema; the error is the
/// report of what `validate_settings` found.
pub fn validate_settings_json(json_value: &serde_json::Value) -> (r: Result<(), String>)
    ensures
        validated_report(json_document(*json_value), report_view(r)),
{
    match validate_settings(json_value) {
        Ok(()) => Ok(()),
        Err(e) => {
            let report = e.message();
            assert(validated(json_document(*json_value), Err(e@)) && report@ == error_report(e@));
            Err(report)
        },
    }
}

/// Reads a text as a JSON document; the error is the report of what is
/// wrong with the text.
pub fn parse_settings_json(content: &str) -> (r: Result<serde_json::Value, String>)
    ensures
        match r {
            Ok(value) => parsed_json(content@) == Some(json_document(value)),
            Err(text) => parsed_json(content@) is None && is_syntax_report(text@),
        },
{
    match parse_json(content) {
        Ok(value) => Ok(value),
        Err(e) => {
            let detail = json_error_text(&e);
            let mut text = "Invalid JSON: ".to_string();
            text.append(detail.as_str());
            assert(text@ == syntax_report(detail@));
            Err(text)
        },
    }
}

} // verus!
