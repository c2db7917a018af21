use axum_derive_error::emit::emit;
use axum_derive_error::emit::generate;
use axum_derive_error::resolve::resolve;
use axum_derive_error::variant::GenerateError;
use axum_derive_error::variant::Marker;
use axum_derive_error::variant::Shape;
use axum_derive_error::variant::TypeData;
use axum_derive_error::variant::VariantDescriptor;

const DEFAULT_EXPR: &str = "::axum::http::StatusCode::INTERNAL_SERVER_ERROR";

fn variant(name: &str, shape: Shape, markers: Vec<Marker>) -> VariantDescriptor {
    VariantDescriptor {
        name: name.to_string(),
        shape,
        markers,
    }
}

fn marker(name: &str, payload: &str) -> Marker {
    Marker {
        name: name.to_string(),
        payload: payload.to_string(),
    }
}

#[test]
fn unmarked_variant_gets_default() {
    let variants = vec![variant("InsertUserToDb", Shape::Positional(1), vec![])];
    let resolved = resolve(&variants);
    assert_eq!(resolved.len(), 1);
    assert_eq!(resolved[0].name, "InsertUserToDb");
    assert_eq!(resolved[0].expr, DEFAULT_EXPR);
}

#[test]
fn marked_variant_gets_payload() {
    let variants = vec![variant(
        "InvalidBody",
        Shape::Positional(1),
        vec![marker("status", "(StatusCode::UNPROCESSABLE_ENTITY)")],
    )];
    let resolved = resolve(&variants);
    assert_eq!(resolved[0].expr, "(StatusCode::UNPROCESSABLE_ENTITY)");
}

#[test]
fn later_marker_wins() {
    let variants = vec![variant(
        "Conflicted",
        Shape::Unit,
        vec![
            marker("status", "(StatusCode::BAD_REQUEST)"),
            marker("status", "(StatusCode::NOT_FOUND)"),
        ],
    )];
    let resolved = resolve(&variants);
    assert_eq!(resolved[0].expr, "(StatusCode::NOT_FOUND)");
}

#[test]
fn other_markers_are_ignored() {
    let variants = vec![variant(
        "Documented",
        Shape::Unit,
        vec![
            marker("doc", "= \"a documented variant\""),
            marker("allow", "(dead_code)"),
        ],
    )];
    let resolved = resolve(&variants);
    assert_eq!(resolved[0].expr, DEFAULT_EXPR);
}

#[test]
fn resolver_keeps_declaration_order() {
    let variants = vec![
        variant("First", Shape::Unit, vec![]),
        variant("Second", Shape::Named, vec![marker("status", "(StatusCode::NOT_FOUND)")]),
        variant("Third", Shape::Positional(2), vec![]),
    ];
    let resolved = resolve(&variants);
    assert_eq!(resolved.len(), 3);
    assert_eq!(resolved[0].name, "First");
    assert_eq!(resolved[1].name, "Second");
    assert_eq!(resolved[2].name, "Third");
    assert_eq!(resolved[1].expr, "(StatusCode::NOT_FOUND)");
}

#[test]
fn empty_union_generates_empty_classifier() {
    let data = TypeData::Enum(vec![]);
    let text = generate("Empty", &data).unwrap();
    let expected = "impl Empty {
    fn status_code(&self) -> ::axum::http::StatusCode {
        match self {
        }
    }
}

impl ::axum::response::IntoResponse for Empty {
    fn into_response(self) -> ::axum::response::Response {
        let status = self.status_code();
        let mut error_message = self.to_string();

        if status.is_server_error() {
            ::tracing::error!(error_message, error_details = ?self, \"internal server error\");
            error_message = \"Internal server error\".to_string();
        }

        let body = ::axum::Json(::serde_json::json!({
            \"code\": status.as_u16(),
            \"error\": error_message,
        }));

        ::axum::response::IntoResponse::into_response((status, body))
    }
}

impl ::std::fmt::Debug for Empty {
    fn fmt(&self, f: &mut ::std::fmt::Formatter<'_>) -> ::std::fmt::Result {
        writeln!(f, \"{}\\n\", self)?;
        let mut current = ::std::error::Error::source(self);
        while let Some(cause) = current {
            writeln!(f, \"Caused by:\\n\\t{}\", cause)?;
            current = ::std::error::Error::source(cause);
        }
        Ok(())
    }
}
";
    assert_eq!(text, expected);
}

#[test]
fn arm_patterns_ignore_payload_by_shape() {
    let variants = vec![
        variant("UnitCase", Shape::Unit, vec![]),
        variant("Pair", Shape::Positional(2), vec![]),
        variant("Fields", Shape::Named, vec![]),
    ];
    let entries = resolve(&variants);
    let text = emit("Mixed", &entries);
    assert!(text.contains(
        "            Self::UnitCase => { #[allow(unused_parens)] \
         ::axum::http::StatusCode::INTERNAL_SERVER_ERROR },\n"
    ));
    assert!(text.contains(
        "            Self::Pair(_, _, ) => { #[allow(unused_parens)] \
         ::axum::http::StatusCode::INTERNAL_SERVER_ERROR },\n"
    ));
    assert!(text.contains(
        "            Self::Fields { .. } => { #[allow(unused_parens)] \
         ::axum::http::StatusCode::INTERNAL_SERVER_ERROR },\n"
    ));
}

#[test]
fn scenario_two_variant_union_arms() {
    let variants = vec![
        variant("InsertUserToDb", Shape::Positional(1), vec![]),
        variant(
            "InvalidBody",
            Shape::Positional(1),
            vec![marker("status", "(StatusCode::UNPROCESSABLE_ENTITY)")],
        ),
    ];
    let data = TypeData::Enum(variants);
    let text = generate("CreateUserError", &data).unwrap();
    assert!(text.starts_with("impl CreateUserError {\n"));
    assert!(text.contains(
        "            Self::InsertUserToDb(_, ) => { #[allow(unused_parens)] \
         ::axum::http::StatusCode::INTERNAL_SERVER_ERROR },\n"
    ));
    assert!(text.contains(
        "            Self::InvalidBody(_, ) => { #[allow(unused_parens)] \
         (StatusCode::UNPROCESSABLE_ENTITY) },\n"
    ));
    let insert_arm = text.find("Self::InsertUserToDb").unwrap();
    let invalid_arm = text.find("Self::InvalidBody").unwrap();
    assert!(insert_arm < invalid_arm);
}

#[test]
fn emitted_text_is_balanced_rust_tokens() {
    let variants = vec![
        variant("InsertUserToDb", Shape::Positional(1), vec![]),
        variant(
            "InvalidBody",
            Shape::Positional(1),
            vec![marker("status", "(StatusCode::UNPROCESSABLE_ENTITY)")],
        ),
    ];
    let data = TypeData::Enum(variants);
    let text = generate("CreateUserError", &data).unwrap();
    assert!(text.parse::<proc_macro2::TokenStream>().is_ok());
}

#[test]
fn struct_input_is_refused() {
    let refusal = generate("NotAnEnum", &TypeData::Struct).unwrap_err();
    assert!(matches!(refusal, GenerateError::StructInput));
    assert_eq!(refusal.message(), "cannot derive ErrorResponse for structs yet");
}

#[test]
fn union_input_is_refused() {
    let refusal = generate("NotAnEnum", &TypeData::Union).unwrap_err();
    assert!(matches!(refusal, GenerateError::UnionInput));
    assert_eq!(refusal.message(), "cannot derive ErrorResponse for unions");
}
