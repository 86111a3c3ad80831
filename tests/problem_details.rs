use eywa_errors::{
    bad_request, conflict, external_service_error, forbidden, get_request_id, internal_error,
    not_found, service_unavailable, set_request_id, unauthorized, validation_error,
    validation_error_with_code, validation_error_with_value, AppError, FieldError,
    ProblemDetails, RequestContext, ValidationErrorBuilder, ValidationErrors,
};

const REQUEST: u128 = 0x550e8400e29b41d4a716446655440000;

fn convert(e: &AppError) -> ProblemDetails {
    e.to_problem_details(&RequestContext::bound(REQUEST))
}

fn all_variants() -> Vec<(AppError, u16, &'static str, &'static str)> {
    vec![
        (not_found("user", "42"), 404, "Not Found", "https://errors.eywa.dev/not-found"),
        (
            validation_error_with_code("email", "invalid_format", "bad"),
            400,
            "Validation Error",
            "https://errors.eywa.dev/validation-error",
        ),
        (
            validation_error("email", "bad"),
            400,
            "Validation Error",
            "https://errors.eywa.dev/validation-error",
        ),
        (unauthorized(), 401, "Unauthorized", "https://errors.eywa.dev/unauthorized"),
        (forbidden("delete"), 403, "Forbidden", "https://errors.eywa.dev/forbidden"),
        (conflict("taken"), 409, "Conflict", "https://errors.eywa.dev/conflict"),
        (
            AppError::DatabaseError(sea_orm::DbErr::Custom("boom".to_string())),
            500,
            "Database Error",
            "https://errors.eywa.dev/database-error",
        ),
        (
            AppError::ConfigError("missing key".to_string()),
            500,
            "Configuration Error",
            "https://errors.eywa.dev/config-error",
        ),
        (
            external_service_error("billing"),
            502,
            "External Service Error",
            "https://errors.eywa.dev/external-service-error",
        ),
        (
            internal_error("oops"),
            500,
            "Internal Server Error",
            "https://errors.eywa.dev/internal-error",
        ),
        (bad_request("garbled"), 400, "Bad Request", "https://errors.eywa.dev/bad-request"),
        (
            service_unavailable("maintenance"),
            503,
            "Service Unavailable",
            "https://errors.eywa.dev/service-unavailable",
        ),
    ]
}

#[test]
fn every_variant_maps_to_its_status_title_and_type() {
    for (e, status, title, uri) in all_variants() {
        let p = convert(&e);
        assert_eq!(p.status, status);
        assert_eq!(e.status_code(), status);
        assert_eq!(p.title, title);
        assert_eq!(p.error_type, uri);
        assert!(p.instance.is_none());
    }
}

#[test]
fn messages_follow_each_variant() {
    let expected = [
        "Resource not found: user with id: 42",
        "Validation error: email: bad",
        "Validation error: email - bad",
        "Unauthorized",
        "Forbidden: delete",
        "Conflict: taken",
        "Database error: Custom Error: boom",
        "Configuration error: missing key",
        "External service error: billing",
        "Internal error: oops",
        "Bad Request: garbled",
        "Service unavailable: maintenance",
    ];
    for ((e, _, _, _), m) in all_variants().iter().zip(expected.iter()) {
        assert_eq!(e.message(), *m);
        assert_eq!(convert(e).detail, *m);
    }
}

#[test]
fn render_message_uses_the_given_cause_for_database_errors() {
    let e = AppError::DatabaseError(sea_orm::DbErr::Custom("x".to_string()));
    assert_eq!(e.render_message("disk full"), "Database error: disk full");
    assert_eq!(not_found("a", "b").render_message("ignored"), "Resource not found: a with id: b");
}

#[test]
fn empty_builder_builds_ok() {
    let b = ValidationErrorBuilder::new();
    assert!(!b.has_errors());
    assert!(b.build().is_ok());
    assert!(ValidationErrorBuilder::default().build().is_ok());
}

#[test]
fn builder_keeps_all_errors_in_order() {
    let b = ValidationErrorBuilder::new()
        .field("email", "invalid_format", "bad")
        .field("name", "too_short", "short");
    assert!(b.has_errors());
    let e = b.build().unwrap_err();
    let p = convert(&e);
    assert_eq!(p.status, 400);
    assert_eq!(p.title, "Validation Error");
    assert_eq!(p.errors.len(), 2);
    assert_eq!(p.errors[0].field, "email");
    assert_eq!(p.errors[0].code, "invalid_format");
    assert_eq!(p.errors[0].message, "bad");
    assert_eq!(p.errors[1].field, "name");
    assert_eq!(p.errors[1].code, "too_short");
    assert_eq!(p.errors[1].message, "short");
    assert_eq!(p.detail, "Validation error: email: bad, name: short");
}

#[test]
fn builder_records_received_values() {
    let e = ValidationErrorBuilder::new()
        .field_with_value("age", "out_of_range", "too old", serde_json::Value::from(200))
        .build()
        .unwrap_err();
    let p = convert(&e);
    assert_eq!(p.errors.len(), 1);
    assert_eq!(p.errors[0].received, Some(serde_json::Value::from(200)));
}

#[test]
fn not_found_converts_with_ids_in_detail() {
    let p = convert(&not_found("user", "42"));
    assert_eq!(p.status, 404);
    assert!(p.detail.contains("user"));
    assert!(p.detail.contains("42"));
    assert!(p.errors.is_empty());
}

#[test]
fn single_field_error_reports_one_entry() {
    let p = convert(&validation_error("email", "must be valid"));
    assert_eq!(p.errors.len(), 1);
    assert_eq!(p.errors[0].field, "email");
    assert_eq!(p.errors[0].code, "validation_error");
    assert_eq!(p.errors[0].message, "must be valid");
    assert!(p.errors[0].received.is_none());
}

#[test]
fn validation_error_with_value_holds_the_value() {
    let e = validation_error_with_value("name", "too_long", "long", serde_json::Value::from("abc"));
    match &e {
        AppError::Validation(v) => {
            assert_eq!(v.len(), 1);
            assert_eq!(v.errors[0].received, Some(serde_json::Value::from("abc")));
        }
        _ => panic!("expected a validation failure"),
    }
}

#[test]
fn converting_twice_differs_only_in_timestamp() {
    let e = ValidationErrorBuilder::new()
        .field("email", "invalid_format", "bad")
        .build()
        .unwrap_err();
    let a = convert(&e);
    let b = convert(&e);
    assert_eq!(a.error_type, b.error_type);
    assert_eq!(a.title, b.title);
    assert_eq!(a.status, b.status);
    assert_eq!(a.detail, b.detail);
    assert_eq!(a.instance, b.instance);
    assert_eq!(a.request_id, b.request_id);
    assert_eq!(a.errors.len(), b.errors.len());
    assert_eq!(a.errors[0].field, b.errors[0].field);
    let c = e.problem_details_with(REQUEST, "2026-01-06T14:17:00Z".to_string(), "");
    let d = e.problem_details_with(REQUEST, "2026-01-06T14:17:00Z".to_string(), "");
    assert_eq!(c.timestamp, d.timestamp);
    assert_eq!(c.detail, d.detail);
}

#[test]
fn request_id_is_written_hyphenated() {
    let p = convert(&unauthorized());
    assert_eq!(p.request_id, "550e8400-e29b-41d4-a716-446655440000");
    let q = unauthorized().problem_details_with(0xab, "t".to_string(), "");
    assert_eq!(q.request_id, "00000000-0000-0000-0000-0000000000ab");
    assert_eq!(q.timestamp, "t");
}

#[test]
fn timestamp_is_rfc3339() {
    let p = convert(&unauthorized());
    assert!(p.timestamp.len() >= 20);
    assert_eq!(&p.timestamp[4..5], "-");
    assert_eq!(&p.timestamp[10..11], "T");
}

#[test]
fn detached_context_yields_fresh_random_ids() {
    let ctx = RequestContext::detached();
    let a = get_request_id(&ctx);
    let b = get_request_id(&ctx);
    assert_ne!(a, 0);
    assert_ne!(b, 0);
    assert_ne!(a, b);
    assert_eq!((a >> 76) & 0xf, 4);
    assert_eq!((a >> 62) & 0x3, 2);
    let p = unauthorized().to_problem_details(&ctx);
    assert_eq!(p.request_id.len(), 36);
    assert_eq!(&p.request_id[14..15], "4");
}

#[test]
fn scopes_observe_only_their_own_id() {
    let outer = set_request_id(11, |a: RequestContext| {
        let inner = set_request_id(22, |b: RequestContext| {
            let before = get_request_id(&a);
            let mine = get_request_id(&b);
            let after = get_request_id(&a);
            (before, mine, after)
        });
        (get_request_id(&a), inner)
    });
    assert_eq!(outer, (11, (11, 22, 11)));
}

#[test]
fn aggregate_collects_in_order() {
    let mut v = ValidationErrors::new();
    assert!(v.is_empty());
    assert!(ValidationErrors::new().into_result().is_ok());
    v.add("a", "c1", "m1");
    v.add_with_value("b", "c2", "m2", serde_json::Value::from(true));
    assert_eq!(v.len(), 2);
    assert!(!v.is_empty());
    assert_eq!(v.message(), "a: m1, b: m2");
    let copy = v.duplicate();
    assert_eq!(copy.errors[1].field, "b");
    assert_eq!(copy.errors[1].received, Some(serde_json::Value::from(true)));
    let e: AppError = v.into();
    assert_eq!(convert(&e).errors.len(), 2);
}

#[test]
fn field_error_constructors() {
    let f = FieldError::new("f", "c", "m");
    assert_eq!((f.field.as_str(), f.code.as_str(), f.message.as_str()), ("f", "c", "m"));
    assert!(f.received.is_none());
    let g = FieldError::with_received("f", "c", "m", serde_json::Value::from(1));
    assert_eq!(g.received, Some(serde_json::Value::from(1)));
    assert_eq!(g.duplicate().received, Some(serde_json::Value::from(1)));
}
