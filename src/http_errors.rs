//! Constructors for the common failures, and a builder that collects
//! several field errors into one validation failure.

use vstd::prelude::*;

use crate::app_error::{AppError, FieldErrorView, ValidationErrors};

verus! {

/// Create a not found error for a resource.
pub fn not_found(resource: &str, id: &str) -> (r: AppError)
    ensures
        r matches AppError::NotFound { resource: rr, id: ri } && rr@ == resource@ && ri@ == id@,
{
    AppError::NotFound { resource: String::from_str(resource), id: String::from_str(id) }
}

/// Create a validation error for a single field.
pub fn validation_error(field: &str, message: &str) -> (r: AppError)
    ensures
        r matches AppError::ValidationField { field: f, message: m } && f@ == field@ && m@
            == message@,
{
    AppError::ValidationField { field: String::from_str(field), message: String::from_str(message) }
}

/// Create a validation error with a specific code.
pub fn validation_error_with_code(field: &str, code: &str, message: &str) -> (r: AppError)
    ensures
        r matches AppError::Validation(v) && v@ == seq![
            FieldErrorView { field: field@, code: code@, message: message@, received: None },
        ],
{
    let mut errors = ValidationErrors::new();
    errors.add(field, code, message);
    proof {
        assert(errors@ =~= seq![
            FieldErrorView { field: field@, code: code@, message: message@, received: None },
        ]);
    }
    AppError::Validation(errors)
}

/// Create a validation error with the received value included.
pub fn validation_error_with_value(
    field: &str,
    code: &str,
    message: &str,
    received: serde_json::Value,
) -> (r: AppError)
    ensures
        r matches AppError::Validation(v) && v@ == seq![
            FieldErrorView {
                field: field@,
                code: code@,
                message: message@,
                received: Some(received),
            },
        ],
{
    let ghost expected = seq![
        FieldErrorView { field: field@, code: code@, message: message@, received: Some(received) },
    ];
    let mut errors = ValidationErrors::new();
    errors.add_with_value(field, code, message, received);
    proof {
        assert(errors@ =~= expected);
    }
    AppError::Validation(errors)
}

/// Create an unauthorized error.
pub fn unauthorized() -> (r: AppError)
    ensures
        r is Unauthorized,
{
    AppError::Unauthorized
}

/// Create a forbidden error.
pub fn forbidden(action: &str) -> (r: AppError)
    ensures
        r matches AppError::Forbidden { action: a } && a@ == action@,
{
    AppError::Forbidden { action: String::from_str(action) }
}

/// Create a conflict error.
pub fn conflict(message: &str) -> (r: AppError)
    ensures
        r matches AppError::Conflict { message: m } && m@ == message@,
{
    AppError::Conflict { message: String::from_str(message) }
}

/// Create an external service error.
pub fn external_service_error(service: &str) -> (r: AppError)
    ensures
        r matches AppError::ExternalServiceError { service: s } && s@ == service@,
{
    AppError::ExternalServiceError { service: String::from_str(service) }
}

/// Create an internal server error.
pub fn internal_error(message: &str) -> (r: AppError)
    ensures
        r matches AppError::InternalServerError(m) && m@ == message@,
{
    AppError::InternalServerError(String::from_str(message))
}

/// Create a bad request error.
pub fn bad_request(message: &str) -> (r: AppError)
    ensures
        r matches AppError::BadRequest(m) && m@ == message@,
{
    AppError::BadRequest(String::from_str(message))
}

/// Create a service unavailable error.
pub fn service_unavailable(message: &str) -> (r: AppError)
    ensures
        r matches AppError::ServiceUnavailable(m) && m@ == message@,
{
    AppError::ServiceUnavailable(String::from_str(message))
}

// =============================================================================
// Builder for multiple validation errors
// =============================================================================

/// Builder for collecting multiple validation errors without stopping at the
/// first one.
pub struct ValidationErrorBuilder {
    errors: ValidationErrors,
}

impl View for ValidationErrorBuilder {
    type V = Seq<FieldErrorView>;

    closed spec fn view(&self) -> Seq<FieldErrorView> {
        self.errors@
    }
}

impl ValidationErrorBuilder {
    /// Create a new validation error builder.
    pub fn new() -> (r: Self)
        ensures
            r@ == Seq::<FieldErrorView>::empty(),
    {
        ValidationErrorBuilder { errors: ValidationErrors::new() }
    }

    /// Add a field error.
    pub fn field(self, field: &str, code: &str, message: &str) -> (r: Self)
        ensures
            r@ == self@.push(
                FieldErrorView { field: field@, code: code@, message: message@, received: None },
            ),
    {
        let mut errors = self.errors;
        errors.add(field, code, message);
        ValidationErrorBuilder { errors }
    }

    /// Add a field error with the received value.
    pub fn field_with_value(
        self,
        field: &str,
        code: &str,
        message: &str,
        received: serde_json::Value,
    ) -> (r: Self)
        ensures
            r@ == self@.push(
                FieldErrorView {
                    field: field@,
                    code: code@,
                    message: message@,
                    received: Some(received),
                },
            ),
    {
        let mut errors = self.errors;
        errors.add_with_value(field, code, message, received);
        ValidationErrorBuilder { errors }
    }

    /// Build the result: `Ok(())` if no errors were added, otherwise one
    /// validation failure holding all of them in the order they were added.
    pub fn build(self) -> (r: Result<(), AppError>)
        ensures
            self@.len() == 0 <==> r is Ok,
            r is Err ==> (r->Err_0 matches AppError::Validation(v) && v@ == self@),
    {
        self.errors.into_result()
    }

    /// Check if there are any errors.
    pub fn has_errors(&self) -> (r: bool)
        ensures
            r == (self@.len() > 0),
    {
        !self.errors.is_empty()
    }
}

impl Default for ValidationErrorBuilder {
    fn default() -> (r: Self)
        ensures
            r@ == Seq::<FieldErrorView>::empty(),
    {
        Self::new()
    }
}

} // verus!
