//! The failure taxonomy and its conversion into RFC 7807 problem details.

use vstd::prelude::*;

use crate::correlation::{get_request_id, hyphenated, is_random_uuid, uuid_text, RequestContext};

verus! {

#[verifier::external_type_specification]
#[verifier::external_body]
pub struct ExJsonValue(serde_json::Value);

#[verifier::external_type_specification]
#[verifier::external_body]
pub struct ExDbErr(sea_orm::DbErr);

/// Relies on `serde_json::Value`'s `Clone`, a deep copy of the same JSON value.
#[verifier::external_body]
fn clone_json(v: &serde_json::Value) -> (r: serde_json::Value)
    ensures
        r == *v,
{
    v.clone()
}

/// Relies on `sea_orm::DbErr`'s `Display`, the text of the database failure.
#[verifier::external_body]
fn db_err_text(e: &sea_orm::DbErr) -> (r: String) {
    e.to_string()
}

/// Relies on `chrono::Utc::now` and `DateTime::to_rfc3339`: the current time
/// in RFC 3339 form.
#[verifier::external_body]
fn now_rfc3339() -> (r: String) {
    chrono::Utc::now().to_rfc3339()
}

// =============================================================================
// Field errors
// =============================================================================

/// Field-level error for validation failures.
#[derive(Debug)]
pub struct FieldError {
    /// The field that caused the error.
    pub field: String,
    /// Machine-readable error code.
    pub code: String,
    /// Human-readable error message.
    pub message: String,
    /// The value that was received (for debugging).
    pub received: Option<serde_json::Value>,
}

/// What a field error holds, with its texts as character sequences.
pub struct FieldErrorView {
    pub field: Seq<char>,
    pub code: Seq<char>,
    pub message: Seq<char>,
    pub received: Option<serde_json::Value>,
}

impl View for FieldError {
    type V = FieldErrorView;

    open spec fn view(&self) -> FieldErrorView {
        FieldErrorView {
            field: self.field@,
            code: self.code@,
            message: self.message@,
            received: self.received,
        }
    }
}

impl FieldError {
    /// Create a new field error.
    pub fn new(field: &str, code: &str, message: &str) -> (r: Self)
        ensures
            r@ == (FieldErrorView { field: field@, code: code@, message: message@, received: None }),
    {
        FieldError {
            field: String::from_str(field),
            code: String::from_str(code),
            message: String::from_str(message),
            received: None,
        }
    }

    /// Create a new field error with the received value.
    pub fn with_received(
        field: &str,
        code: &str,
        message: &str,
        received: serde_json::Value,
    ) -> (r: Self)
        ensures
            r@ == (FieldErrorView {
                field: field@,
                code: code@,
                message: message@,
                received: Some(received),
            }),
    {
        FieldError {
            field: String::from_str(field),
            code: String::from_str(code),
            message: String::from_str(message),
            received: Some(received),
        }
    }

    /// An independent copy of this field error.
    pub fn duplicate(&self) -> (r: Self)
        ensures
            r@ == self@,
    {
        let received = match &self.received {
            Some(v) => Some(clone_json(v)),
            None => None,
        };
        FieldError {
            field: self.field.clone(),
            code: self.code.clone(),
            message: self.message.clone(),
            received,
        }
    }
}

/// The views of a sequence of field errors.
pub open spec fn field_views(s: Seq<FieldError>) -> Seq<FieldErrorView> {
    s.map_values(|e: FieldError| e@)
}

/// One field error as it appears in an aggregate's message: `field: message`.
pub open spec fn entry_text(e: FieldErrorView) -> Seq<char> {
    e.field + ": "@ + e.message
}

/// The entries of `s`, in order, separated by `, `.
pub open spec fn joined_messages(s: Seq<FieldErrorView>) -> Seq<char>
    decreases s.len(),
{
    if s.len() == 0 {
        Seq::empty()
    } else if s.len() == 1 {
        entry_text(s[0])
    } else {
        joined_messages(s.drop_last()) + ", "@ + entry_text(s.last())
    }
}

// =============================================================================
// Validation aggregate
// =============================================================================

/// Collection of validation errors for multiple fields, in insertion order.
#[derive(Debug)]
pub struct ValidationErrors {
    pub errors: Vec<FieldError>,
}

impl View for ValidationErrors {
    type V = Seq<FieldErrorView>;

    open spec fn view(&self) -> Seq<FieldErrorView> {
        field_views(self.errors@)
    }
}

impl ValidationErrors {
    /// Create a new empty validation errors collection.
    pub fn new() -> (r: Self)
        ensures
            r@ == Seq::<FieldErrorView>::empty(),
    {
        ValidationErrors { errors: Vec::new() }
    }

    /// Add a field error.
    pub fn add(&mut self, field: &str, code: &str, message: &str)
        ensures
            final(self)@ == old(self)@.push(
                FieldErrorView { field: field@, code: code@, message: message@, received: None },
            ),
    {
        self.errors.push(FieldError::new(field, code, message));
        proof {
            assert(field_views(self.errors@) =~= field_views(old(self).errors@).push(
                self.errors@.last()@,
            ));
        }
    }

    /// Add a field error with the received value.
    pub fn add_with_value(
        &mut self,
        field: &str,
        code: &str,
        message: &str,
        received: serde_json::Value,
    )
        ensures
            final(self)@ == old(self)@.push(
                FieldErrorView {
                    field: field@,
                    code: code@,
                    message: message@,
                    received: Some(received),
                },
            ),
    {
        self.errors.push(FieldError::with_received(field, code, message, received));
        proof {
            assert(field_views(self.errors@) =~= field_views(old(self).errors@).push(
                self.errors@.last()@,
            ));
        }
    }

    /// Check if there are any errors.
    pub fn is_empty(&self) -> (r: bool)
        ensures
            r == (self@.len() == 0),
    {
        self.errors.len() == 0
    }

    /// Get the number of errors.
    pub fn len(&self) -> (r: usize)
        ensures
            r == self@.len(),
    {
        self.errors.len()
    }

    /// Convert to a validation failure if there are errors, otherwise `Ok(())`.
    pub fn into_result(self) -> (r: Result<(), AppError>)
        ensures
            self@.len() == 0 <==> r is Ok,
            r is Err ==> r->Err_0 == AppError::Validation(self),
    {
        if self.is_empty() {
            Ok(())
        } else {
            Err(AppError::Validation(self))
        }
    }

    /// An independent copy of the collection, in the same order.
    pub fn duplicate(&self) -> (r: Self)
        ensures
            r@ == self@,
    {
        let mut errors: Vec<FieldError> = Vec::new();
        let mut i: usize = 0;
        while i < self.errors.len()
            invariant
                i <= self.errors@.len(),
                errors@.len() == i,
                forall|j: int| 0 <= j < i ==> #[trigger] errors@[j]@ == self.errors@[j]@,
            decreases self.errors@.len() - i,
        {
            let e = self.errors[i].duplicate();
            errors.push(e);
            i = i + 1;
        }
        proof {
            assert(field_views(errors@) =~= field_views(self.errors@));
        }
        ValidationErrors { errors }
    }

    /// The aggregate as one line: each `field: message`, separated by `, `.
    pub fn message(&self) -> (r: String)
        ensures
            r@ == joined_messages(self@),
    {
        let mut out = String::new();
        let mut i: usize = 0;
        while i < self.errors.len()
            invariant
                i <= self.errors@.len(),
                out@ == joined_messages(self@.take(i as int)),
            decreases self.errors@.len() - i,
        {
            let e = &self.errors[i];
            if i > 0 {
                out.append(", ");
            }
            out.append(e.field.as_str());
            out.append(": ");
            out.append(e.message.as_str());
            proof {
                let next = self@.take(i + 1);
                assert(next.drop_last() =~= self@.take(i as int));
                assert(next.last() == e@);
                if i == 0 {
                    assert(out@ =~= entry_text(e@));
                } else {
                    assert(out@ =~= joined_messages(self@.take(i as int)) + ", "@ + entry_text(
                        e@,
                    ));
                }
            }
            i = i + 1;
        }
        proof {
            assert(self@.take(i as int) =~= self@);
        }
        out
    }
}

impl From<ValidationErrors> for AppError {
    fn from(errors: ValidationErrors) -> Self {
        AppError::Validation(errors)
    }
}

impl vstd::std_specs::convert::FromSpecImpl<ValidationErrors> for AppError {
    open spec fn obeys_from_spec() -> bool {
        true
    }

    open spec fn from_spec(errors: ValidationErrors) -> AppError {
        AppError::Validation(errors)
    }
}

// =============================================================================
// Failure taxonomy
// =============================================================================

/// The closed set of application failures.
#[derive(Debug)]
pub enum AppError {
    NotFound { resource: String, id: String },
    Validation(ValidationErrors),
    ValidationField { field: String, message: String },
    Unauthorized,
    Forbidden { action: String },
    Conflict { message: String },
    DatabaseError(sea_orm::DbErr),
    ConfigError(String),
    ExternalServiceError { service: String },
    InternalServerError(String),
    BadRequest(String),
    ServiceUnavailable(String),
}

/// RFC 7807 problem details document.
#[derive(Debug)]
pub struct ProblemDetails {
    /// URI reference that identifies the problem type.
    pub error_type: String,
    /// Short, human-readable summary of the problem type.
    pub title: String,
    /// HTTP status code.
    pub status: u16,
    /// Human-readable explanation specific to this occurrence of the problem.
    pub detail: String,
    /// URI reference that identifies the specific occurrence of the problem.
    pub instance: Option<String>,
    /// Unique request identifier for tracing.
    pub request_id: String,
    /// ISO 8601 timestamp of when the error occurred.
    pub timestamp: String,
    /// Field-level validation errors (if applicable).
    pub errors: Vec<FieldError>,
}

/// What a problem details document holds, with its texts as character
/// sequences.
pub struct ProblemDetailsView {
    pub error_type: Seq<char>,
    pub title: Seq<char>,
    pub status: u16,
    pub detail: Seq<char>,
    pub instance: Option<Seq<char>>,
    pub request_id: Seq<char>,
    pub timestamp: Seq<char>,
    pub errors: Seq<FieldErrorView>,
}

impl View for ProblemDetails {
    type V = ProblemDetailsView;

    open spec fn view(&self) -> ProblemDetailsView {
        ProblemDetailsView {
            error_type: self.error_type@,
            title: self.title@,
            status: self.status,
            detail: self.detail@,
            instance: match self.instance {
                Some(s) => Some(s@),
                None => None,
            },
            request_id: self.request_id@,
            timestamp: self.timestamp@,
            errors: field_views(self.errors@),
        }
    }
}

/// Legacy flat error body, superseded by `ProblemDetails`.
pub struct ErrorResponse {
    pub error: String,
    pub message: String,
    pub code: String,
    pub request_id: String,
    pub timestamp: String,
}

impl AppError {
    /// The HTTP status of each kind of failure.
    pub open spec fn status_spec(&self) -> u16 {
        match self {
            AppError::NotFound { .. } => 404,
            AppError::Validation(_) | AppError::ValidationField { .. } => 400,
            AppError::BadRequest(_) => 400,
            AppError::Unauthorized => 401,
            AppError::Forbidden { .. } => 403,
            AppError::Conflict { .. } => 409,
            AppError::DatabaseError(_) => 500,
            AppError::ConfigError(_) => 500,
            AppError::ExternalServiceError { .. } => 502,
            AppError::InternalServerError(_) => 500,
            AppError::ServiceUnavailable(_) => 503,
        }
    }

    /// The title of each kind of failure.
    pub open spec fn title_spec(&self) -> Seq<char> {
        match self {
            AppError::NotFound { .. } => "Not Found"@,
            AppError::Validation(_) | AppError::ValidationField { .. } => "Validation Error"@,
            AppError::BadRequest(_) => "Bad Request"@,
            AppError::Unauthorized => "Unauthorized"@,
            AppError::Forbidden { .. } => "Forbidden"@,
            AppError::Conflict { .. } => "Conflict"@,
            AppError::DatabaseError(_) => "Database Error"@,
            AppError::ConfigError(_) => "Configuration Error"@,
            AppError::ExternalServiceError { .. } => "External Service Error"@,
            AppError::InternalServerError(_) => "Internal Server Error"@,
            AppError::ServiceUnavailable(_) => "Service Unavailable"@,
        }
    }

    /// The problem type URI of each kind of failure.
    pub open spec fn type_uri_spec(&self) -> Seq<char> {
        match self {
            AppError::NotFound { .. } => "https://errors.eywa.dev/not-found"@,
            AppError::Validation(_) | AppError::ValidationField { .. } =>
                "https://errors.eywa.dev/validation-error"@,
            AppError::Unauthorized => "https://errors.eywa.dev/unauthorized"@,
            AppError::Forbidden { .. } => "https://errors.eywa.dev/forbidden"@,
            AppError::Conflict { .. } => "https://errors.eywa.dev/conflict"@,
            AppError::DatabaseError(_) => "https://errors.eywa.dev/database-error"@,
            AppError::ConfigError(_) => "https://errors.eywa.dev/config-error"@,
            AppError::ExternalServiceError { .. } =>
                "https://errors.eywa.dev/external-service-error"@,
            AppError::InternalServerError(_) => "https://errors.eywa.dev/internal-error"@,
            AppError::BadRequest(_) => "https://errors.eywa.dev/bad-request"@,
            AppError::ServiceUnavailable(_) => "https://errors.eywa.dev/service-unavailable"@,
        }
    }

    /// Whether the failure carries a database cause, whose text comes from the
    /// database layer.
    pub open spec fn has_cause(&self) -> bool {
        self is DatabaseError
    }

    /// The one-line message of the failure; `cause` is the text of the
    /// database cause and is read for `DatabaseError` alone.
    pub open spec fn message_spec(&self, cause: Seq<char>) -> Seq<char> {
        match self {
            AppError::NotFound { resource, id } => "Resource not found: "@ + resource@
                + " with id: "@ + id@,
            AppError::Validation(v) => "Validation error: "@ + joined_messages(v@),
            AppError::ValidationField { field, message } => "Validation error: "@ + field@ + " - "@
                + message@,
            AppError::Unauthorized => "Unauthorized"@,
            AppError::Forbidden { action } => "Forbidden: "@ + action@,
            AppError::Conflict { message } => "Conflict: "@ + message@,
            AppError::DatabaseError(_) => "Database error: "@ + cause,
            AppError::ConfigError(m) => "Configuration error: "@ + m@,
            AppError::ExternalServiceError { service } => "External service error: "@ + service@,
            AppError::InternalServerError(m) => "Internal error: "@ + m@,
            AppError::BadRequest(m) => "Bad Request: "@ + m@,
            AppError::ServiceUnavailable(m) => "Service unavailable: "@ + m@,
        }
    }

    /// The field errors that a failure reports: the aggregate of `Validation`,
    /// one entry for `ValidationField`, none otherwise.
    pub open spec fn field_errors_spec(&self) -> Seq<FieldErrorView> {
        match self {
            AppError::Validation(v) => v@,
            AppError::ValidationField { field, message } => seq![
                FieldErrorView {
                    field: field@,
                    code: "validation_error"@,
                    message: message@,
                    received: None,
                },
            ],
            _ => Seq::empty(),
        }
    }

    /// The problem details of the failure for a request identifier, a
    /// timestamp and the text of a database cause.
    pub open spec fn problem_spec(
        &self,
        request_id: u128,
        timestamp: Seq<char>,
        cause: Seq<char>,
    ) -> ProblemDetailsView {
        ProblemDetailsView {
            error_type: self.type_uri_spec(),
            title: self.title_spec(),
            status: self.status_spec(),
            detail: self.message_spec(cause),
            instance: None,
            request_id: hyphenated(request_id),
            timestamp,
            errors: self.field_errors_spec(),
        }
    }

    /// Get the error type URI for this error.
    fn error_type_uri(&self) -> (r: &'static str)
        ensures
            r@ == self.type_uri_spec(),
    {
        match self {
            AppError::NotFound { .. } => "https://errors.eywa.dev/not-found",
            AppError::Validation(_) | AppError::ValidationField { .. } => {
                "https://errors.eywa.dev/validation-error"
            },
            AppError::Unauthorized => "https://errors.eywa.dev/unauthorized",
            AppError::Forbidden { .. } => "https://errors.eywa.dev/forbidden",
            AppError::Conflict { .. } => "https://errors.eywa.dev/conflict",
            AppError::DatabaseError(_) => "https://errors.eywa.dev/database-error",
            AppError::ConfigError(_) => "https://errors.eywa.dev/config-error",
            AppError::ExternalServiceError { .. } => {
                "https://errors.eywa.dev/external-service-error"
            },
            AppError::InternalServerError(_) => "https://errors.eywa.dev/internal-error",
            AppError::BadRequest(_) => "https://errors.eywa.dev/bad-request",
            AppError::ServiceUnavailable(_) => "https://errors.eywa.dev/service-unavailable",
        }
    }

    /// Get the HTTP status code and title for this error.
    fn status_and_title(&self) -> (r: (u16, &'static str))
        ensures
            r.0 == self.status_spec(),
            r.1@ == self.title_spec(),
    {
        match self {
            AppError::NotFound { .. } => (404, "Not Found"),
            AppError::Validation(_) | AppError::ValidationField { .. } => {
                (400, "Validation Error")
            },
            AppError::BadRequest(_) => (400, "Bad Request"),
            AppError::Unauthorized => (401, "Unauthorized"),
            AppError::Forbidden { .. } => (403, "Forbidden"),
            AppError::Conflict { .. } => (409, "Conflict"),
            AppError::DatabaseError(_) => (500, "Database Error"),
            AppError::ConfigError(_) => (500, "Configuration Error"),
            AppError::ExternalServiceError { .. } => (502, "External Service Error"),
            AppError::InternalServerError(_) => (500, "Internal Server Error"),
            AppError::ServiceUnavailable(_) => (503, "Service Unavailable"),
        }
    }

    /// The HTTP status of this error.
    pub fn status_code(&self) -> (r: u16)
        ensures
            r == self.status_spec(),
    {
        self.status_and_title().0
    }

    /// The message of this error, with `cause` standing for the text of a
    /// database cause.
    pub fn render_message(&self, cause: &str) -> (r: String)
        ensures
            r@ == self.message_spec(cause@),
    {
        let mut out = String::new();
        match self {
            AppError::NotFound { resource, id } => {
                out.append("Resource not found: ");
                out.append(resource.as_str());
                out.append(" with id: ");
                out.append(id.as_str());
            },
            AppError::Validation(v) => {
                out.append("Validation error: ");
                let m = v.message();
                out.append(m.as_str());
            },
            AppError::ValidationField { field, message } => {
                out.append("Validation error: ");
                out.append(field.as_str());
                out.append(" - ");
                out.append(message.as_str());
            },
            AppError::Unauthorized => {
                out.append("Unauthorized");
            },
            AppError::Forbidden { action } => {
                out.append("Forbidden: ");
                out.append(action.as_str());
            },
            AppError::Conflict { message } => {
                out.append("Conflict: ");
                out.append(message.as_str());
            },
            AppError::DatabaseError(_) => {
                out.append("Database error: ");
                out.append(cause);
            },
            AppError::ConfigError(m) => {
                out.append("Configuration error: ");
                out.append(m.as_str());
            },
            AppError::ExternalServiceError { service } => {
                out.append("External service error: ");
                out.append(service.as_str());
            },
            AppError::InternalServerError(m) => {
                out.append("Internal error: ");
                out.append(m.as_str());
            },
            AppError::BadRequest(m) => {
                out.append("Bad Request: ");
                out.append(m.as_str());
            },
            AppError::ServiceUnavailable(m) => {
                out.append("Service unavailable: ");
                out.append(m.as_str());
            },
        }
        out
    }

    /// The text of the database cause, or empty for every other failure.
    fn cause_text(&self) -> (r: String)
        ensures
            !self.has_cause() ==> r@ == Seq::<char>::empty(),
    {
        match self {
            AppError::DatabaseError(e) => db_err_text(e),
            _ => String::new(),
        }
    }

    /// The one-line message of this error.
    pub fn message(&self) -> (r: String)
        ensures
            exists|cause: Seq<char>| r@ == self.message_spec(cause),
            !self.has_cause() ==> r@ == self.message_spec(Seq::empty()),
    {
        let cause = self.cause_text();
        self.render_message(cause.as_str())
    }

    /// The field errors this error reports, copied in order.
    fn field_errors(&self) -> (r: Vec<FieldError>)
        ensures
            field_views(r@) == self.field_errors_spec(),
    {
        match self {
            AppError::Validation(v) => v.duplicate().errors,
            AppError::ValidationField { field, message } => {
                let mut errors: Vec<FieldError> = Vec::new();
                errors.push(FieldError::new(field.as_str(), "validation_error", message.as_str()));
                proof {
                    assert(field_views(errors@) =~= self.field_errors_spec());
                }
                errors
            },
            _ => {
                let errors: Vec<FieldError> = Vec::new();
                proof {
                    assert(field_views(errors@) =~= self.field_errors_spec());
                }
                errors
            },
        }
    }

    /// Convert to problem details for the given request identifier, timestamp
    /// and database cause text.
    pub fn problem_details_with(
        &self,
        request_id: u128,
        timestamp: String,
        cause: &str,
    ) -> (r: ProblemDetails)
        ensures
            r@ == self.problem_spec(request_id, timestamp@, cause@),
    {
        let (status, title) = self.status_and_title();
        ProblemDetails {
            error_type: String::from_str(self.error_type_uri()),
            title: String::from_str(title),
            status,
            detail: self.render_message(cause),
            instance: None,
            request_id: uuid_text(request_id),
            timestamp,
            errors: self.field_errors(),
        }
    }

    /// Convert to problem details for the request that `ctx` belongs to,
    /// stamped with the current time.
    pub fn to_problem_details(&self, ctx: &RequestContext) -> (r: ProblemDetails)
        ensures
            r.error_type@ == self.type_uri_spec(),
            r.title@ == self.title_spec(),
            r.status == self.status_spec(),
            !self.has_cause() ==> r.detail@ == self.message_spec(Seq::empty()),
            exists|cause: Seq<char>| r.detail@ == self.message_spec(cause),
            r.instance is None,
            ctx.request_id is Some ==> r.request_id@ == hyphenated(ctx.request_id->0),
            exists|id: u128|
                r.request_id@ == hyphenated(id) && (ctx.request_id is None ==> is_random_uuid(id)),
            field_views(r.errors@) == self.field_errors_spec(),
    {
        let request_id = get_request_id(ctx);
        let timestamp = now_rfc3339();
        let cause = self.cause_text();
        self.problem_details_with(request_id, timestamp, cause.as_str())
    }
}

/// Converting one failure twice yields the same document but for the request
/// identifier, when the identifiers differ, and the timestamp.
pub proof fn lemma_conversion_deterministic(
    e: AppError,
    id1: u128,
    id2: u128,
    t1: Seq<char>,
    t2: Seq<char>,
    cause: Seq<char>,
)
    ensures
        ({
            let a = e.problem_spec(id1, t1, cause);
            let b = e.problem_spec(id2, t2, cause);
            &&& a.error_type == b.error_type
            &&& a.title == b.title
            &&& a.status == b.status
            &&& a.detail == b.detail
            &&& a.instance == b.instance
            &&& a.errors == b.errors
            &&& id1 == id2 ==> a.request_id == b.request_id
            &&& t1 == t2 ==> a.timestamp == b.timestamp
        }),
{
}

} // verus!
