//! The attribute resolver: assigns every variant its effective
//! classification expression.
//!
//! A variant carrying at least one `status` marker gets the payload of the
//! last such marker (later markers win over earlier ones); a variant with
//! no `status` marker gets the server-fault default expression. The
//! resolver never fails: a missing marker is a structural property, not an
//! error.

use vstd::prelude::*;

use crate::variant::Marker;
use crate::variant::ResolvedVariant;
use crate::variant::VariantDescriptor;

verus! {

/// The marker name the resolver recognizes.
pub open spec fn status_keyword() -> Seq<char> {
    "status"@
}

/// The classification expression assigned to variants with no `status`
/// marker: the internal/server-fault constant.
pub open spec fn default_status_expr() -> Seq<char> {
    "::axum::http::StatusCode::INTERNAL_SERVER_ERROR"@
}

/// The effective classification expression for a variant with the given
/// markers: the payload of the last `status` marker, or the default.
pub open spec fn resolved_expr(markers: Seq<Marker>) -> Seq<char>
    decreases markers.len(),
{
    if markers.len() == 0 {
        default_status_expr()
    } else if markers.last().name@ == status_keyword() {
        markers.last().payload@
    } else {
        resolved_expr(markers.drop_last())
    }
}

/// A variant none of whose markers is named `status` resolves to the
/// server-fault default, whatever its other markers hold.
pub proof fn lemma_unmarked_variant_defaults(markers: Seq<Marker>)
    requires
        forall|i: int| 0 <= i < markers.len() ==> (#[trigger] markers[i]).name@ != status_keyword(),
    ensures
        resolved_expr(markers) == default_status_expr(),
    decreases markers.len(),
{
    if markers.len() > 0 {
        lemma_unmarked_variant_defaults(markers.drop_last());
    }
}

/// A variant whose last `status` marker stands at position `i` resolves to
/// exactly that marker's payload, whatever the other markers hold.
pub proof fn lemma_marked_variant_payload(markers: Seq<Marker>, i: int)
    requires
        0 <= i < markers.len(),
        markers[i].name@ == status_keyword(),
        forall|j: int| i < j < markers.len() ==> (#[trigger] markers[j]).name@ != status_keyword(),
    ensures
        resolved_expr(markers) == markers[i].payload@,
    decreases markers.len(),
{
    if i < markers.len() - 1 {
        lemma_marked_variant_payload(markers.drop_last(), i);
    }
}

/// The effective classification expression of one variant, as executable
/// code: scan the markers from the end for one named `status`.
fn resolve_expr_of(markers: &Vec<Marker>) -> (r: String)
    ensures
        r@ == resolved_expr(markers@),
{
    let keyword: String = "status".to_owned();
    let mut j: usize = markers.len();
    proof {
        assert(markers@.take(j as int) =~= markers@);
    }
    while j > 0
        invariant
            j <= markers@.len(),
            keyword@ == status_keyword(),
            resolved_expr(markers@) == resolved_expr(markers@.take(j as int)),
        decreases j,
    {
        j = j - 1;
        proof {
            assert(markers@.take(j + 1).last() == markers@[j as int]);
            assert(markers@.take(j + 1).drop_last() =~= markers@.take(j as int));
        }
        if markers[j].name == keyword {
            return markers[j].payload.clone();
        }
    }
    proof {
        assert(markers@.take(0) =~= Seq::<Marker>::empty());
    }
    "::axum::http::StatusCode::INTERNAL_SERVER_ERROR".to_owned()
}

/// The attribute resolver: pair every variant, in declaration order, with
/// its effective classification expression.
pub fn resolve(variants: &Vec<VariantDescriptor>) -> (r: Vec<ResolvedVariant>)
    ensures
        r@.len() == variants@.len(),
        forall|i: int| 0 <= i < variants@.len() ==> {
            &&& (#[trigger] r@[i]).name@ == variants@[i].name@
            &&& r@[i].shape == variants@[i].shape
            &&& r@[i].expr@ == resolved_expr(variants@[i].markers@)
        },
{
    let mut out: Vec<ResolvedVariant> = Vec::new();
    let mut k: usize = 0;
    while k < variants.len()
        invariant
            k <= variants@.len(),
            out@.len() == k,
            forall|i: int| 0 <= i < k ==> {
                &&& (#[trigger] out@[i]).name@ == variants@[i].name@
                &&& out@[i].shape == variants@[i].shape
                &&& out@[i].expr@ == resolved_expr(variants@[i].markers@)
            },
        decreases variants@.len() - k,
    {
        let v = &variants[k];
        let expr = resolve_expr_of(&v.markers);
        out.push(ResolvedVariant { name: v.name.clone(), shape: v.shape, expr });
        k = k + 1;
    }
    out
}

} // verus!
