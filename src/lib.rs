//! Error taxonomy for HTTP services, its mapping onto RFC 7807 problem
//! details, multi-field validation aggregation and request correlation.

mod app_error;
mod correlation;
mod http_errors;

pub use app_error::{
    AppError, ErrorResponse, FieldError, FieldErrorView, ProblemDetails, ProblemDetailsView,
    ValidationErrors, entry_text, field_views, joined_messages, lemma_conversion_deterministic,
};
pub use correlation::{
    RequestContext, get_request_id, hex_digit, hyphenated, is_random_uuid, lemma_random_uuid_nonzero,
    set_request_id, uuid_nibble,
};
pub use http_errors::{
    ValidationErrorBuilder, bad_request, conflict, external_service_error, forbidden,
    internal_error, not_found, service_unavailable, unauthorized, validation_error,
    validation_error_with_code, validation_error_with_value,
};
