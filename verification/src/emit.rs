//! The code emitter: turns the resolved mapping into Rust source text.
//!
//! Three behaviors are emitted for the annotated enum: a `status_code`
//! classifier with one match arm per variant (payload fields are always
//! wildcard-matched), an `IntoResponse` conversion that applies the
//! server-fault information-hiding policy, and a `Debug` rendering that
//! walks the causal chain. The emitted text is pinned exactly by
//! [`generated_text`].

use vstd::prelude::*;
use vstd::string::StringExecFns;

use crate::resolve::resolve;
use crate::resolve::resolved_expr;
use crate::variant::GenerateError;
use crate::variant::ResolvedVariant;
use crate::variant::Shape;
use crate::variant::TypeData;
use crate::variant::VariantDescriptor;

verus! {

/// What one match arm needs of a resolved variant: name, shape, and the
/// classification expression, all as mathematical values.
pub open spec fn entry_view(e: ResolvedVariant) -> (Seq<char>, Shape, Seq<char>) {
    (e.name@, e.shape, e.expr@)
}

/// The arm data of a not-yet-resolved variant: the expression the
/// resolver will assign it.
pub open spec fn resolved_view(v: VariantDescriptor) -> (Seq<char>, Shape, Seq<char>) {
    (v.name@, v.shape, resolved_expr(v.markers@))
}

pub open spec fn entry_views(s: Seq<ResolvedVariant>) -> Seq<(Seq<char>, Shape, Seq<char>)> {
    s.map_values(|e: ResolvedVariant| entry_view(e))
}

pub open spec fn resolved_views(s: Seq<VariantDescriptor>) -> Seq<(Seq<char>, Shape, Seq<char>)> {
    s.map_values(|v: VariantDescriptor| resolved_view(v))
}

/// One `_, ` per positional field: the wildcard list of a tuple pattern.
pub open spec fn underscore_fields(n: nat) -> Seq<char>
    decreases n,
{
    if n == 0 {
        Seq::empty()
    } else {
        underscore_fields((n - 1) as nat) + "_, "@
    }
}

/// The payload-ignoring pattern suffix for a variant of the given shape.
pub open spec fn pattern_text(shape: Shape) -> Seq<char> {
    match shape {
        Shape::Unit => Seq::empty(),
        Shape::Positional(n) => "("@ + underscore_fields(n as nat) + ")"@,
        Shape::Named => " { .. }"@,
    }
}

/// One classifier match arm: the variant matched with its payload ignored,
/// evaluating to its classification expression.
pub open spec fn arm_text(name: Seq<char>, shape: Shape, expr: Seq<char>) -> Seq<char> {
    "            Self::"@ + name + pattern_text(shape) + " => { #[allow(unused_parens)] "@ + expr
        + " },\n"@
}

/// All classifier arms, one per resolved variant, in declaration order.
pub open spec fn arms_text(entries: Seq<(Seq<char>, Shape, Seq<char>)>) -> Seq<char>
    decreases entries.len(),
{
    if entries.len() == 0 {
        Seq::empty()
    } else {
        arms_text(entries.drop_last()) + arm_text(
            entries.last().0,
            entries.last().1,
            entries.last().2,
        )
    }
}

pub open spec fn classifier_open() -> Seq<char> {
    " {\n    fn status_code(&self) -> ::axum::http::StatusCode {\n        match self {\n"@
}

pub open spec fn classifier_close() -> Seq<char> {
    "        }\n    }\n}\n\n"@
}

/// The fixed body of the emitted `IntoResponse` impl: classify, hide the
/// message of server faults behind the fixed literal while logging the
/// detail, and answer with a `code`/`error` JSON body.
pub open spec fn into_response_body() -> Seq<char> {
    " {\n    fn into_response(self) -> ::axum::response::Response {\n        let status = self.status_code();\n        let mut error_message = self.to_string();\n\n        if status.is_server_error() {\n            ::tracing::error!(error_message, error_details = ?self, \"internal server error\");\n            error_message = \"Internal server error\".to_string();\n        }\n\n        let body = ::axum::Json(::serde_json::json!({\n            \"code\": status.as_u16(),\n            \"error\": error_message,\n        }));\n\n        ::axum::response::IntoResponse::into_response((status, body))\n    }\n}\n\n"@
}

/// The fixed body of the emitted `Debug` impl: the display message, a
/// blank line, then one `Caused by:` line per cause in the chain.
pub open spec fn debug_body() -> Seq<char> {
    " {\n    fn fmt(&self, f: &mut ::std::fmt::Formatter<'_>) -> ::std::fmt::Result {\n        writeln!(f, \"{}\\n\", self)?;\n        let mut current = ::std::error::Error::source(self);\n        while let Some(cause) = current {\n            writeln!(f, \"Caused by:\\n\\t{}\", cause)?;\n            current = ::std::error::Error::source(cause);\n        }\n        Ok(())\n    }\n}\n"@
}

/// The whole generated definition for an enum named `ident` whose
/// resolved variants are `entries`: the classifier, the response
/// conversion, and the debug rendering.
pub open spec fn generated_text(
    ident: Seq<char>,
    entries: Seq<(Seq<char>, Shape, Seq<char>)>,
) -> Seq<char> {
    "impl "@ + ident + classifier_open() + arms_text(entries) + classifier_close()
        + "impl ::axum::response::IntoResponse for "@ + ident + into_response_body()
        + "impl ::std::fmt::Debug for "@ + ident + debug_body()
}

/// Append the payload-ignoring pattern for `shape`.
fn append_pattern(out: &mut String, shape: &Shape)
    ensures
        final(out)@ == old(out)@ + pattern_text(*shape),
{
    match shape {
        Shape::Unit => {
            proof {
                assert(out@ =~= old(out)@ + pattern_text(*shape));
            }
        },
        Shape::Positional(n) => {
            out.append("(");
            let mut i: usize = 0;
            while i < *n
                invariant
                    i <= *n,
                    out@ == old(out)@ + "("@ + underscore_fields(i as nat),
                decreases *n - i,
            {
                out.append("_, ");
                i = i + 1;
                proof {
                    assert(out@ =~= old(out)@ + "("@ + underscore_fields(i as nat));
                }
            }
            out.append(")");
            proof {
                assert(out@ =~= old(out)@ + pattern_text(*shape));
            }
        },
        Shape::Named => {
            out.append(" { .. }");
        },
    }
}

/// Append one classifier arm for a resolved variant.
fn append_arm(out: &mut String, entry: &ResolvedVariant)
    ensures
        final(out)@ == old(out)@ + arm_text(entry.name@, entry.shape, entry.expr@),
{
    out.append("            Self::");
    out.append(entry.name.as_str());
    append_pattern(out, &entry.shape);
    out.append(" => { #[allow(unused_parens)] ");
    out.append(entry.expr.as_str());
    out.append(" },\n");
    proof {
        assert(out@ =~= old(out)@ + arm_text(entry.name@, entry.shape, entry.expr@));
    }
}

/// The code emitter: the generated definition for `ident` from its
/// resolved mapping, exactly as [`generated_text`] states it.
pub fn emit(ident: &str, entries: &Vec<ResolvedVariant>) -> (r: String)
    ensures
        r@ == generated_text(ident@, entry_views(entries@)),
{
    let mut out = String::new();
    out.append("impl ");
    out.append(ident);
    out.append(" {\n    fn status_code(&self) -> ::axum::http::StatusCode {\n        match self {\n");
    proof {
        assert(entry_views(entries@.take(0)) =~= Seq::<(Seq<char>, Shape, Seq<char>)>::empty());
        assert(out@ =~= "impl "@ + ident@ + classifier_open() + arms_text(
            entry_views(entries@.take(0)),
        ));
    }
    let mut k: usize = 0;
    while k < entries.len()
        invariant
            k <= entries@.len(),
            out@ == "impl "@ + ident@ + classifier_open() + arms_text(
                entry_views(entries@.take(k as int)),
            ),
        decreases entries@.len() - k,
    {
        append_arm(&mut out, &entries[k]);
        k = k + 1;
        proof {
            let views = entry_views(entries@.take(k as int));
            assert(views.drop_last() =~= entry_views(entries@.take(k - 1)));
            assert(views.last() == entry_view(entries@[k - 1]));
            assert(out@ =~= "impl "@ + ident@ + classifier_open() + arms_text(views));
        }
    }
    proof {
        assert(entries@.take(entries@.len() as int) =~= entries@);
    }
    out.append("        }\n    }\n}\n\n");
    out.append("impl ::axum::response::IntoResponse for ");
    out.append(ident);
    out.append(" {\n    fn into_response(self) -> ::axum::response::Response {\n        let status = self.status_code();\n        let mut error_message = self.to_string();\n\n        if status.is_server_error() {\n            ::tracing::error!(error_message, error_details = ?self, \"internal server error\");\n            error_message = \"Internal server error\".to_string();\n        }\n\n        let body = ::axum::Json(::serde_json::json!({\n            \"code\": status.as_u16(),\n            \"error\": error_message,\n        }));\n\n        ::axum::response::IntoResponse::into_response((status, body))\n    }\n}\n\n");
    out.append("impl ::std::fmt::Debug for ");
    out.append(ident);
    out.append(" {\n    fn fmt(&self, f: &mut ::std::fmt::Formatter<'_>) -> ::std::fmt::Result {\n        writeln!(f, \"{}\\n\", self)?;\n        let mut current = ::std::error::Error::source(self);\n        while let Some(cause) = current {\n            writeln!(f, \"Caused by:\\n\\t{}\", cause)?;\n            current = ::std::error::Error::source(cause);\n        }\n        Ok(())\n    }\n}\n");
    proof {
        assert(out@ =~= generated_text(ident@, entry_views(entries@)));
    }
    out
}

/// The whole generator: refuse anything but a tagged union, then resolve
/// the variants and emit the generated definition.
pub fn generate(ident: &str, data: &TypeData) -> (r: Result<String, GenerateError>)
    ensures
        match *data {
            TypeData::Enum(ref vs) => r matches Ok(t) && t@ == generated_text(
                ident@,
                resolved_views(vs@),
            ),
            TypeData::Struct => r == Err::<String, GenerateError>(GenerateError::StructInput),
            TypeData::Union => r == Err::<String, GenerateError>(GenerateError::UnionInput),
        },
{
    match data {
        TypeData::Enum(vs) => {
            let entries = resolve(vs);
            let text = emit(ident, &entries);
            proof {
                assert(entry_views(entries@) =~= resolved_views(vs@));
            }
            Ok(text)
        },
        TypeData::Struct => Err(GenerateError::StructInput),
        TypeData::Union => Err(GenerateError::UnionInput),
    }
}

} // verus!
