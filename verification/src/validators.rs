use vstd::prelude::*;
use validator::ValidateEmail;

use crate::error_handler::{AppError, JsonRejection};
use crate::text::chars_of;

verus! {

/// The message shown for a failed check that carries no message of its own.
pub const DEFAULT_MESSAGE: &'static str = "invalid value";

/// One failed check on one field: the rule that failed and its optional message.
#[derive(Debug)]
pub struct ValidationError {
    pub code: String,
    pub message: Option<String>,
}

/// The mathematical content of a [`ValidationError`].
pub struct ValidationErrorView {
    pub code: Seq<char>,
    pub message: Option<Seq<char>>,
}

/// The characters of an optional string.
pub open spec fn opt_string_view(s: Option<String>) -> Option<Seq<char>> {
    match s {
        Some(m) => Some(m@),
        None => None,
    }
}

impl View for ValidationError {
    type V = ValidationErrorView;

    open spec fn view(&self) -> ValidationErrorView {
        ValidationErrorView { code: self.code@, message: opt_string_view(self.message) }
    }
}

/// Every failed check on one field, in the order the checks ran.
#[derive(Debug)]
pub struct FieldErrors {
    pub field: String,
    pub errors: Vec<ValidationError>,
}

/// The mathematical content of a [`FieldErrors`].
pub struct FieldErrorsView {
    pub field: Seq<char>,
    pub errors: Seq<ValidationErrorView>,
}

impl View for FieldErrors {
    type V = FieldErrorsView;

    open spec fn view(&self) -> FieldErrorsView {
        FieldErrorsView { field: self.field@, errors: self.errors@.map_values(|e: ValidationError| e@) }
    }
}

/// The outcome of a failed validation: the failed checks, grouped by field.
#[derive(Debug)]
pub struct ValidationErrors {
    pub fields: Vec<FieldErrors>,
}

impl View for ValidationErrors {
    type V = Seq<FieldErrorsView>;

    open spec fn view(&self) -> Seq<FieldErrorsView> {
        self.fields@.map_values(|f: FieldErrors| f@)
    }
}

/// A report is well formed when no field is named twice and every named field
/// carries at least one failed check.
pub open spec fn report_well_formed(report: Seq<FieldErrorsView>) -> bool {
    &&& forall|i: int, j: int|
        0 <= i < j < report.len() ==> #[trigger] report[i].field != #[trigger] report[j].field
    &&& forall|i: int| 0 <= i < report.len() ==> #[trigger] report[i].errors.len() > 0
}

/// The messages reported for one field.
#[derive(Debug)]
pub struct FieldMessages {
    pub field: String,
    pub messages: Vec<String>,
}

/// The mathematical content of a [`FieldMessages`]: the field and its messages.
pub struct FieldMessagesView {
    pub field: Seq<char>,
    pub messages: Seq<Seq<char>>,
}

impl View for FieldMessages {
    type V = FieldMessagesView;

    open spec fn view(&self) -> FieldMessagesView {
        FieldMessagesView { field: self.field@, messages: self.messages@.map_values(|m: String| m@) }
    }
}

/// The message reported for a failed check: its own, or the default one.
pub open spec fn shown_message(e: ValidationErrorView) -> Seq<char> {
    match e.message {
        Some(m) => m,
        None => DEFAULT_MESSAGE@,
    }
}

/// The messages reported for every field of a validation report.
pub open spec fn report_messages(report: Seq<FieldErrorsView>) -> Seq<FieldMessagesView> {
    report.map_values(
        |f: FieldErrorsView|
            FieldMessagesView {
                field: f.field,
                messages: f.errors.map_values(|e: ValidationErrorView| shown_message(e)),
            },
    )
}

fn copy_string(s: &String) -> (r: String)
    ensures
        r@ == s@,
{
    s.as_str().to_owned()
}

fn field_messages(f: &FieldErrors) -> (r: FieldMessages)
    ensures
        r@ == (FieldMessagesView {
            field: f@.field,
            messages: f@.errors.map_values(|e: ValidationErrorView| shown_message(e)),
        }),
{
    let mut messages: Vec<String> = Vec::new();
    let n = f.errors.len();
    let mut i: usize = 0;
    while i < n
        invariant
            n == f.errors@.len(),
            i <= n,
            messages@.len() == i,
            forall|k: int|
                0 <= k < i ==> (#[trigger] messages@[k])@ == shown_message(f.errors@[k]@),
        decreases n - i,
    {
        let e = &f.errors[i];
        let m = match &e.message {
            Some(m) => copy_string(m),
            None => DEFAULT_MESSAGE.to_owned(),
        };
        messages.push(m);
        i += 1;
    }
    let r = FieldMessages { field: copy_string(&f.field), messages };
    assert(r@.messages =~= f@.errors.map_values(|e: ValidationErrorView| shown_message(e)));
    r
}

/// For every field of a failed validation, the messages of its failed checks:
/// a check's own message where it has one, else [`DEFAULT_MESSAGE`].
pub fn format_validation_errors(err: ValidationErrors) -> (r: Vec<FieldMessages>)
    ensures
        r@.map_values(|f: FieldMessages| f@) == report_messages(err@),
{
    let mut out: Vec<FieldMessages> = Vec::new();
    let n = err.fields.len();
    let mut i: usize = 0;
    while i < n
        invariant
            n == err.fields@.len(),
            i <= n,
            out@.len() == i,
            forall|k: int|
                0 <= k < i ==> (#[trigger] out@[k])@ == report_messages(err@)[k],
        decreases n - i,
    {
        let fm = field_messages(&err.fields[i]);
        out.push(fm);
        i += 1;
    }
    assert(out@.map_values(|f: FieldMessages| f@) =~= report_messages(err@));
    out
}

/// Whether the e-mail check of the `validator` crate accepts `s`.
pub uninterp spec fn email_accepted(s: Seq<char>) -> bool;

/// Calls `validator::ValidateEmail::validate_email` on `s` (the HTML5 rule for
/// e-mail addresses, with an IDN fallback for the domain). Trusted: the result
/// is [`email_accepted`] of the characters of `s`, and, as the crate's source
/// shows, an empty string or one without `@` is refused.
#[verifier::external_body]
fn email_check(s: &str) -> (ok: bool)
    ensures
        ok == email_accepted(s@),
        ok ==> s@.len() > 0 && s@.contains('@'),
{
    s.validate_email()
}

/// Whether a length lies within the optional lower and upper bounds.
pub open spec fn length_within(len: nat, min: Option<u64>, max: Option<u64>) -> bool {
    &&& (min matches Some(lo) ==> len >= lo)
    &&& (max matches Some(hi) ==> len <= hi)
}

/// Whether the number of characters of `s` lies within the bounds (the
/// length rule of the `validator` crate, which counts characters).
pub fn validate_length(s: &str, min: Option<u64>, max: Option<u64>) -> (ok: bool)
    ensures
        ok == length_within(s@.len(), min, max),
{
    let n = chars_of(s).len();
    let lo_ok = match min {
        Some(lo) => n as u64 >= lo,
        None => true,
    };
    let hi_ok = match max {
        Some(hi) => n as u64 <= hi,
        None => true,
    };
    lo_ok && hi_ok
}

/// Whether `s` is an acceptable e-mail address.
pub fn validate_email(s: &str) -> (ok: bool)
    ensures
        ok == email_accepted(s@),
        ok ==> s@.len() > 0 && s@.contains('@'),
{
    email_check(s)
}

/// A report with one field and one failed check.
pub open spec fn single_failure(field: Seq<char>, code: Seq<char>, message: Option<Seq<char>>) -> Seq<
    FieldErrorsView,
> {
    seq![
        FieldErrorsView {
            field,
            errors: seq![ValidationErrorView { code, message }],
        },
    ]
}

/// The entry for one field that failed one check.
pub fn single_field_error(field: &str, code: &str, message: Option<&str>) -> (r: FieldErrors)
    ensures
        r@ == (FieldErrorsView {
            field: field@,
            errors: seq![
                ValidationErrorView {
                    code: code@,
                    message: match message {
                        Some(m) => Some(m@),
                        None => None,
                    },
                },
            ],
        }),
{
    let m = match message {
        Some(m) => Some(m.to_owned()),
        None => None,
    };
    let mut errors: Vec<ValidationError> = Vec::new();
    errors.push(ValidationError { code: code.to_owned(), message: m });
    let r = FieldErrors { field: field.to_owned(), errors };
    assert(r@.errors =~= seq![r.errors@[0]@]);
    r
}

/// Types whose values are checked field by field before use.
pub trait Validate {
    /// The failed checks of this value, grouped by field; empty when it passes.
    spec fn validation_report(&self) -> Seq<FieldErrorsView>;

    /// Runs every check: passes exactly when no check fails, and otherwise
    /// reports exactly the failed checks.
    fn validate(&self) -> (r: Result<(), ValidationErrors>)
        ensures
            r is Ok <==> self.validation_report().len() == 0,
            r matches Err(e) ==> e@ == self.validation_report(),
    ;
}

/// A request body that was read as JSON and passed its checks.
#[derive(Debug)]
pub struct ValidatedJson<T>(pub T);

impl<T: Validate> ValidatedJson<T> {
    /// Accepts a body that was read and passes its checks; a body that could
    /// not be read is refused with the reading failure, one that fails its
    /// checks with the failed checks.
    pub fn from_request(body: Result<T, JsonRejection>) -> (r: Result<ValidatedJson<T>, AppError>)
        ensures
            match body {
                Err(rej) => r == Err::<ValidatedJson<T>, AppError>(AppError::AxumJsonRejection(rej)),
                Ok(v) => if v.validation_report().len() == 0 {
                    r == Ok::<ValidatedJson<T>, AppError>(ValidatedJson(v))
                } else {
                    r matches Err(AppError::ValidationError(e)) && e@ == v.validation_report()
                },
            },
    {
        match body {
            Err(rej) => Err(AppError::AxumJsonRejection(rej)),
            Ok(v) => match v.validate() {
                Ok(()) => Ok(ValidatedJson(v)),
                Err(e) => Err(AppError::ValidationError(e)),
            },
        }
    }
}

} // verus!
