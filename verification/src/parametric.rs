//! The parametric gate value: a gate template carrying only structural
//! fields, with parameter values deferred to a later binding step.

use vstd::prelude::*;
use crate::property::{
    copy_vec, vec_eq_u8, vec_eq_usize, GatePropertyView, GenericGateProperty,
};

verus! {

/// A reduced gate value holding only `name`, `target_indices`,
/// `control_indices` and `pauli_ids`; its classical indices, parameters and
/// matrix are fixed empty/absent. Any name is accepted: parametric gates
/// are not checked against the kind table.
#[derive(Clone, Debug)]
pub struct ParametricQuantumGate {
    prop: GenericGateProperty,
}

impl View for ParametricQuantumGate {
    type V = GatePropertyView;

    closed spec fn view(&self) -> GatePropertyView {
        self.prop@
    }
}

impl ParametricQuantumGate {
    /// The fixed part of every parametric gate: no classical indices, no
    /// parameters, no matrix.
    pub open spec fn wf(&self) -> bool {
        &&& self@.classical_indices.len() == 0
        &&& self@.params.len() == 0
        &&& self@.unitary_matrix is None
    }

    /// Builds a parametric gate from its structural fields; the remaining
    /// fields are fixed empty/absent.
    pub fn new(
        name: String,
        target_indices: Vec<usize>,
        control_indices: Vec<usize>,
        pauli_ids: Vec<u8>,
    ) -> (r: ParametricQuantumGate)
        ensures
            r@.name == name@,
            r@.target_indices == target_indices@,
            r@.control_indices == control_indices@,
            r@.pauli_ids == pauli_ids@,
            r@.classical_indices == Seq::<usize>::empty(),
            r@.params == Seq::<u64>::empty(),
            r@.unitary_matrix is None,
            r.wf(),
    {
        let prop = GenericGateProperty {
            name,
            target_indices,
            control_indices,
            pauli_ids,
            classical_indices: Vec::new(),
            params: Vec::new(),
            unitary_matrix: Option::None,
        };
        proof {
            assert(prop@.classical_indices =~= Seq::<usize>::empty());
            assert(prop@.params =~= Seq::<u64>::empty());
        }
        ParametricQuantumGate { prop }
    }

    /// The name field.
    pub fn get_name(&self) -> (r: &String)
        ensures
            r@ == self@.name,
    {
        &self.prop.name
    }

    /// The ordered qubit indices this gate value acts on.
    pub fn get_target_indices(&self) -> (r: &Vec<usize>)
        ensures
            r@ == self@.target_indices,
    {
        &self.prop.target_indices
    }

    /// The ordered control qubit indices.
    pub fn get_control_indices(&self) -> (r: &Vec<usize>)
        ensures
            r@ == self@.control_indices,
    {
        &self.prop.control_indices
    }

    /// The parameters; always empty for a parametric gate.
    pub fn get_params(&self) -> (r: &Vec<u64>)
        ensures
            r@ == self@.params,
    {
        &self.prop.params
    }

    /// The Pauli tags.
    pub fn get_pauli_ids(&self) -> (r: &Vec<u8>)
        ensures
            r@ == self@.pauli_ids,
    {
        &self.prop.pauli_ids
    }

    /// The canonical string form of this parametric gate value:
    /// deterministic, and reproducible byte for byte across runs and
    /// processes.
    pub fn to_display_string(&self) -> (s: String)
        ensures
            s@ == crate::display::compat_string_parametric_of(self@),
    {
        self.prop.get_compat_string_parametric()
    }

    /// The deterministic hash of this parametric gate value: a pure
    /// function of its fields, so equal values always hash equal.
    pub fn hash_value(&self) -> (r: u64)
        ensures
            r == crate::hashing::parametric_hash_of(self@),
    {
        crate::hashing::hash_parametric_property(&self.prop)
    }

    /// Decomposes this gate value into its structural field tuple; feeding the
    /// tuple back through `new` reconstructs an equal value.
    pub fn decompose(&self) -> (r: (String, Vec<usize>, Vec<usize>, Vec<u8>))
        ensures
            r.0@ == self@.name,
            r.1@ == self@.target_indices,
            r.2@ == self@.control_indices,
            r.3@ == self@.pauli_ids,
    {
        (
            self.prop.name.clone(),
            copy_vec(&self.prop.target_indices),
            copy_vec(&self.prop.control_indices),
            copy_vec(&self.prop.pauli_ids),
        )
    }
}

impl PartialEq for ParametricQuantumGate {
    /// Structural equality over the parametric field set.
    fn eq(&self, other: &Self) -> (r: bool) {
        let r = self.prop.name == other.prop.name && vec_eq_usize(
            &self.prop.target_indices,
            &other.prop.target_indices,
        ) && vec_eq_usize(&self.prop.control_indices, &other.prop.control_indices)
            && vec_eq_usize(&self.prop.classical_indices, &other.prop.classical_indices)
            && crate::property::vec_eq_u64(&self.prop.params, &other.prop.params) && vec_eq_u8(
            &self.prop.pauli_ids,
            &other.prop.pauli_ids,
        ) && crate::property::opt_matrix_eq(
            &self.prop.unitary_matrix,
            &other.prop.unitary_matrix,
        );
        proof {
            if r {
                assert(self@ =~= other@);
            }
        }
        r
    }
}

impl vstd::std_specs::cmp::PartialEqSpecImpl for ParametricQuantumGate {
    open spec fn obeys_eq_spec() -> bool {
        true
    }

    open spec fn eq_spec(&self, other: &ParametricQuantumGate) -> bool {
        self@ == other@
    }
}

} // verus!
