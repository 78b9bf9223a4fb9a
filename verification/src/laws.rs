//! The laws of the canonical representation, stated and proved once over
//! the contracts of the normalizer, the hash and the string form.

use vstd::prelude::*;
use crate::display::compat_string_of;
use crate::gate::{normalized_of, QuantumGate};
use crate::hashing::gate_hash_of;
use crate::kinds::{lemma_pow2_pos, shape_ok, MatrixRule};
use crate::property::GatePropertyView;
use vstd::std_specs::cmp::PartialEqSpec;

verus! {

/// Round-trip law: decomposing a valid gate value and feeding the field
/// tuple back through the normalizer is accepted and reconstructs a value
/// equal to the original. With `decompose`'s contract giving back exactly
/// the fields of `g@`, and `recompose` accepting exactly when
/// `shape_ok(normalized_of(g@))` holds and then returning a gate whose view
/// is `normalized_of(g@)`, both conclusions below say the rebuilt gate
/// exists and equals `g`.
pub proof fn lemma_decompose_recompose_round_trip(g: QuantumGate)
    requires
        g.wf(),
    ensures
        shape_ok(normalized_of(g@)),
        normalized_of(g@) == g@,
{
    match g@.unitary_matrix {
        Option::Some(rows) => {
            match crate::kinds::rule_for(g@.name) {
                Option::Some(r) => {
                    match r.matrix {
                        MatrixRule::Forbidden => {
                            assert(false);
                        },
                        MatrixRule::SquarePow2Targets => {
                            lemma_pow2_pos(g@.target_indices.len());
                            assert(rows.len() > 0);
                        },
                    }
                },
                Option::None => {
                    assert(false);
                },
            }
        },
        Option::None => {},
    }
}

/// Equality law: gate values with equal fields compare equal under `==`,
/// however and whenever each was constructed; equality is structural, never
/// tied to a particular normalizer invocation.
pub proof fn lemma_structural_equality(a: QuantumGate, b: QuantumGate)
    requires
        a@ == b@,
    ensures
        a.eq_spec(&b),
{
}

/// Hash law: equal gate values always hash equal. Together with the
/// normalizer's contract (a constructed gate's view is exactly the
/// normalized input bag), two constructions from identical field tuples
/// yield equal values and equal hashes.
pub proof fn lemma_equal_gates_hash_equal(a: QuantumGate, b: QuantumGate)
    requires
        a@ == b@,
    ensures
        gate_hash_of(a@) == gate_hash_of(b@),
{
}

/// Determinism law: the canonical string form is a pure function of the
/// gate value, so two calls on the same (or equal) gate values yield
/// identical text.
pub proof fn lemma_display_deterministic(a: QuantumGate, b: QuantumGate)
    requires
        a@ == b@,
    ensures
        compat_string_of(a@) == compat_string_of(b@),
{
}

/// Empty-matrix law: a property bag whose matrix is an explicit empty
/// placeholder normalizes to the same value as the same bag with no matrix
/// at all, so validation treats the two identically.
pub proof fn lemma_empty_matrix_equals_absent(p: GatePropertyView, q: GatePropertyView)
    requires
        (p.unitary_matrix matches Some(rows) && rows.len() == 0),
        (q == GatePropertyView { unitary_matrix: Option::None, ..p }),
    ensures
        normalized_of(p) == normalized_of(q),
{
    assert(normalized_of(p) =~= normalized_of(q));
}

} // verus!
