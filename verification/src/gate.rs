//! The validated gate value, its normalizing constructor, its accessors,
//! and the decompose/recompose persistence pair.

use vstd::prelude::*;
use crate::kinds::shape_ok;
use crate::property::{
    copy_matrix, copy_vec, matrix_view, opt_matrix_eq, vec_eq_u64, vec_eq_u8, vec_eq_usize,
    ComplexEntry, GatePropertyView, GenericGateProperty,
};

verus! {

/// The single error of this library: the property bag's fields do not match
/// the kind table entry for its name, or the name is unrecognized.
/// Carries the rejected gate name for diagnostics.
#[derive(Clone, Debug)]
pub struct InvalidGateShape {
    pub name: String,
}

/// Normalization applied before validation: an explicitly supplied matrix
/// with zero rows counts as no matrix at all; every other field is kept
/// exactly as supplied.
pub open spec fn normalized_of(p: GatePropertyView) -> GatePropertyView {
    match p.unitary_matrix {
        Option::Some(rows) => if rows.len() == 0 {
            GatePropertyView { unitary_matrix: Option::None, ..p }
        } else {
            p
        },
        Option::None => p,
    }
}

/// A validated, immutable gate value. The only constructors are
/// `from_property` and `recompose`, both of which check the property bag
/// against the kind table, so every `QuantumGate` satisfies `wf`.
#[derive(Clone, Debug)]
pub struct QuantumGate {
    prop: GenericGateProperty,
}

impl View for QuantumGate {
    type V = GatePropertyView;

    closed spec fn view(&self) -> GatePropertyView {
        self.prop@
    }
}

impl QuantumGate {
    /// The invariant of every gate value: its field shapes match the
    /// gate-kind table entry for its name.
    pub open spec fn wf(&self) -> bool {
        shape_ok(self@)
    }

    /// The normalizer/validator: looks the name up in the kind table
    /// and checks every field shape against it. Succeeds exactly on bags
    /// whose normalized form is valid; on success the result wraps exactly
    /// the validated fields; on failure the error names the rejected gate.
    pub fn from_property(prop: GenericGateProperty) -> (r: Result<QuantumGate, InvalidGateShape>)
        ensures
            r is Ok <==> shape_ok(normalized_of(prop@)),
            r matches Ok(g) ==> g@ == normalized_of(prop@) && g.wf(),
            r matches Err(e) ==> e.name@ == prop@.name,
    {
        let ghost p0 = prop@;
        let mut prop = prop;
        let drop_matrix = match &prop.unitary_matrix {
            Option::Some(rows) => rows.len() == 0,
            Option::None => false,
        };
        if drop_matrix {
            prop.unitary_matrix = Option::None;
        }
        proof {
            assert(prop@ =~= normalized_of(p0));
        }
        if crate::kinds::check_shape(&prop) {
            Result::Ok(QuantumGate { prop })
        } else {
            Result::Err(InvalidGateShape { name: prop.name })
        }
    }

    /// The name field.
    pub fn get_name(&self) -> (r: &String)
        ensures
            r@ == self@.name,
    {
        &self.prop.name
    }

    /// The ordered qubit indices this gate value acts on.
    pub fn get_target_indices(&self) -> (r: &Vec<usize>)
        ensures
            r@ == self@.target_indices,
    {
        &self.prop.target_indices
    }

    /// The ordered control qubit indices.
    pub fn get_control_indices(&self) -> (r: &Vec<usize>)
        ensures
            r@ == self@.control_indices,
    {
        &self.prop.control_indices
    }

    /// The ordered classical bit indices.
    pub fn get_classical_indices(&self) -> (r: &Vec<usize>)
        ensures
            r@ == self@.classical_indices,
    {
        &self.prop.classical_indices
    }

    /// The parameters, as IEEE-754 bit patterns.
    pub fn get_params(&self) -> (r: &Vec<u64>)
        ensures
            r@ == self@.params,
    {
        &self.prop.params
    }

    /// The Pauli tags.
    pub fn get_pauli_ids(&self) -> (r: &Vec<u8>)
        ensures
            r@ == self@.pauli_ids,
    {
        &self.prop.pauli_ids
    }

    /// The unitary matrix, if this gate value carries one.
    pub fn get_unitary_matrix(&self) -> (r: &Option<Vec<Vec<ComplexEntry>>>)
        ensures
            matrix_view(*r) == self@.unitary_matrix,
    {
        &self.prop.unitary_matrix
    }

    /// The canonical string form of this gate value: deterministic, and
    /// reproducible byte for byte across runs and processes.
    pub fn to_display_string(&self) -> (s: String)
        ensures
            s@ == crate::display::compat_string_of(self@),
    {
        self.prop.get_compat_string()
    }

    /// The deterministic hash of this gate value: a pure function of its
    /// fields, so equal gate values always hash equal.
    pub fn hash_value(&self) -> (r: u64)
        ensures
            r == crate::hashing::gate_hash_of(self@),
    {
        crate::hashing::hash_property(&self.prop)
    }

    /// Gives the validated fields back as a property bag.
    pub fn into_property(self) -> (r: GenericGateProperty)
        ensures
            r@ == self@,
    {
        self.prop
    }

    /// Decomposes this gate value into its field tuple, for persistence and
    /// cross-process transfer. Feeding the tuple back through `recompose`
    /// reconstructs an equal gate value.
    pub fn decompose(&self) -> (r: (
        String,
        Vec<usize>,
        Vec<usize>,
        Vec<usize>,
        Vec<u64>,
        Vec<u8>,
        Option<Vec<Vec<ComplexEntry>>>,
    ))
        ensures
            r.0@ == self@.name,
            r.1@ == self@.target_indices,
            r.2@ == self@.control_indices,
            r.3@ == self@.classical_indices,
            r.4@ == self@.params,
            r.5@ == self@.pauli_ids,
            matrix_view(r.6) == self@.unitary_matrix,
    {
        let matrix = match &self.prop.unitary_matrix {
            Option::Some(rows) => Option::Some(copy_matrix(rows)),
            Option::None => Option::None,
        };
        (
            self.prop.name.clone(),
            copy_vec(&self.prop.target_indices),
            copy_vec(&self.prop.control_indices),
            copy_vec(&self.prop.classical_indices),
            copy_vec(&self.prop.params),
            copy_vec(&self.prop.pauli_ids),
            matrix,
        )
    }

    /// Rebuilds a gate from a decomposed field tuple, through the same
    /// normalizer validation as direct construction; never a bypass.
    pub fn recompose(
        name: String,
        target_indices: Vec<usize>,
        control_indices: Vec<usize>,
        classical_indices: Vec<usize>,
        params: Vec<u64>,
        pauli_ids: Vec<u8>,
        unitary_matrix: Option<Vec<Vec<ComplexEntry>>>,
    ) -> (r: Result<QuantumGate, InvalidGateShape>)
        ensures
            ({
                let p = GatePropertyView {
                    name: name@,
                    target_indices: target_indices@,
                    control_indices: control_indices@,
                    classical_indices: classical_indices@,
                    params: params@,
                    pauli_ids: pauli_ids@,
                    unitary_matrix: matrix_view(unitary_matrix),
                };
                &&& (r is Ok <==> shape_ok(normalized_of(p)))
                &&& (r matches Ok(g) ==> g@ == normalized_of(p) && g.wf())
                &&& (r matches Err(e) ==> e.name@ == p.name)
            }),
    {
        QuantumGate::from_property(
            GenericGateProperty {
                name,
                target_indices,
                control_indices,
                classical_indices,
                params,
                pauli_ids,
                unitary_matrix,
            },
        )
    }
}

impl PartialEq for QuantumGate {
    /// Structural equality: every field compares equal, parameters and
    /// matrix entries by exact bit patterns.
    fn eq(&self, other: &Self) -> (r: bool) {
        let r = self.prop.name == other.prop.name && vec_eq_usize(
            &self.prop.target_indices,
            &other.prop.target_indices,
        ) && vec_eq_usize(&self.prop.control_indices, &other.prop.control_indices)
            && vec_eq_usize(&self.prop.classical_indices, &other.prop.classical_indices)
            && vec_eq_u64(&self.prop.params, &other.prop.params) && vec_eq_u8(
            &self.prop.pauli_ids,
            &other.prop.pauli_ids,
        ) && opt_matrix_eq(&self.prop.unitary_matrix, &other.prop.unitary_matrix);
        proof {
            if r {
                assert(self@ =~= other@);
            }
        }
        r
    }
}

impl vstd::std_specs::cmp::PartialEqSpecImpl for QuantumGate {
    open spec fn obeys_eq_spec() -> bool {
        true
    }

    open spec fn eq_spec(&self, other: &QuantumGate) -> bool {
        self@ == other@
    }
}

} // verus!
