//! The kind table: for every recognized gate name, the exact field
//! shapes that a valid gate of that name must have, and the single routine
//! that checks a property bag against them.

use vstd::prelude::*;
use crate::property::{ComplexEntry, GatePropertyView, GenericGateProperty};

verus! {

/// Required number of target indices for a gate kind.
#[derive(Clone, Copy, PartialEq, Eq, Structural, Debug)]
pub enum TargetArity {
    /// Exactly this many target indices.
    Exact(usize),
    /// Any number of target indices.
    Any,
}

/// Required number of classical indices for a gate kind.
#[derive(Clone, Copy, PartialEq, Eq, Structural, Debug)]
pub enum ClassicalArity {
    /// No classical indices at all.
    Zero,
    /// One classical index per target index (measurement-like gates).
    EqualTargets,
}

/// Required number of Pauli tags for a gate kind.
#[derive(Clone, Copy, PartialEq, Eq, Structural, Debug)]
pub enum PauliArity {
    /// No Pauli tags at all.
    Zero,
    /// One Pauli tag per target index (generalized Pauli gates).
    EqualTargets,
}

/// Unitary-matrix rule for a gate kind.
#[derive(Clone, Copy, PartialEq, Eq, Structural, Debug)]
pub enum MatrixRule {
    /// This kind carries no matrix.
    Forbidden,
    /// This kind carries a square matrix of dimension `2^(target count)`.
    SquarePow2Targets,
}

/// One row of the kind table: the exact shape every field must have for
/// a given gate name.
#[derive(Clone, Copy, PartialEq, Eq, Structural, Debug)]
pub struct ShapeRule {
    pub targets: TargetArity,
    pub controls: usize,
    pub classicals: ClassicalArity,
    pub params: usize,
    pub paulis: PauliArity,
    pub matrix: MatrixRule,
}

/// A shape rule shared by the fixed and rotation gate families: an exact
/// target count, an exact control count, an exact parameter count, and no
/// classical indices, Pauli tags or matrix.
pub open spec fn plain_rule(targets: usize, controls: usize, params: usize) -> ShapeRule {
    ShapeRule {
        targets: TargetArity::Exact(targets),
        controls: controls,
        classicals: ClassicalArity::Zero,
        params: params,
        paulis: PauliArity::Zero,
        matrix: MatrixRule::Forbidden,
    }
}

/// The kind table itself: the shape rule for each recognized gate name,
/// or `None` for an unrecognized name.
///
/// Families: fixed single-qubit gates (one target, nothing else), parametric
/// rotation gates (one target, one to three parameters), multi-controlled
/// gates (target and control counts both fixed), generalized Pauli gates
/// (one Pauli tag per target), measurement (one classical index per target),
/// and the generic unitary-matrix gate (square matrix of dimension
/// `2^(target count)`).
pub open spec fn rule_for(name: Seq<char>) -> Option<ShapeRule> {
    if name == "Identity"@ || name == "X"@ || name == "Y"@ || name == "Z"@
        || name == "H"@ || name == "S"@ || name == "Sdag"@ || name == "T"@
        || name == "Tdag"@ || name == "SqrtX"@ || name == "SqrtXdag"@
        || name == "SqrtY"@ || name == "SqrtYdag"@ {
        Option::Some(plain_rule(1, 0, 0))
    } else if name == "RX"@ || name == "RY"@ || name == "RZ"@ || name == "U1"@ {
        Option::Some(plain_rule(1, 0, 1))
    } else if name == "U2"@ {
        Option::Some(plain_rule(1, 0, 2))
    } else if name == "U3"@ {
        Option::Some(plain_rule(1, 0, 3))
    } else if name == "CNOT"@ || name == "CZ"@ {
        Option::Some(plain_rule(1, 1, 0))
    } else if name == "SWAP"@ {
        Option::Some(plain_rule(2, 0, 0))
    } else if name == "TOFFOLI"@ {
        Option::Some(plain_rule(1, 2, 0))
    } else if name == "Pauli"@ {
        Option::Some(ShapeRule {
            targets: TargetArity::Any,
            controls: 0,
            classicals: ClassicalArity::Zero,
            params: 0,
            paulis: PauliArity::EqualTargets,
            matrix: MatrixRule::Forbidden,
        })
    } else if name == "PauliRotation"@ {
        Option::Some(ShapeRule {
            targets: TargetArity::Any,
            controls: 0,
            classicals: ClassicalArity::Zero,
            params: 1,
            paulis: PauliArity::EqualTargets,
            matrix: MatrixRule::Forbidden,
        })
    } else if name == "Measurement"@ {
        Option::Some(ShapeRule {
            targets: TargetArity::Any,
            controls: 0,
            classicals: ClassicalArity::EqualTargets,
            params: 0,
            paulis: PauliArity::Zero,
            matrix: MatrixRule::Forbidden,
        })
    } else if name == "UnitaryMatrix"@ {
        Option::Some(ShapeRule {
            targets: TargetArity::Any,
            controls: 0,
            classicals: ClassicalArity::Zero,
            params: 0,
            paulis: PauliArity::Zero,
            matrix: MatrixRule::SquarePow2Targets,
        })
    } else {
        Option::None
    }
}

/// `2^n` as a mathematical integer.
pub open spec fn pow2(n: nat) -> nat
    decreases n,
{
    if n == 0 {
        1
    } else {
        2 * pow2((n - 1) as nat)
    }
}

/// A matrix is square with dimension `2^targets`: exactly `2^targets` rows,
/// each of that same length.
pub open spec fn matrix_shape_ok(rows: Seq<Seq<ComplexEntry>>, targets: nat) -> bool {
    &&& rows.len() == pow2(targets)
    &&& forall|i: int| 0 <= i < rows.len() ==> (#[trigger] rows[i]).len() == rows.len()
}

/// A property bag matches a shape rule when every field has exactly the
/// length or dimension the rule demands.
pub open spec fn matches_rule(p: GatePropertyView, r: ShapeRule) -> bool {
    &&& match r.targets {
        TargetArity::Exact(n) => p.target_indices.len() == n,
        TargetArity::Any => true,
    }
    &&& p.control_indices.len() == r.controls
    &&& match r.classicals {
        ClassicalArity::Zero => p.classical_indices.len() == 0,
        ClassicalArity::EqualTargets => p.classical_indices.len() == p.target_indices.len(),
    }
    &&& p.params.len() == r.params
    &&& match r.paulis {
        PauliArity::Zero => p.pauli_ids.len() == 0,
        PauliArity::EqualTargets => p.pauli_ids.len() == p.target_indices.len(),
    }
    &&& match r.matrix {
        MatrixRule::Forbidden => p.unitary_matrix is None,
        MatrixRule::SquarePow2Targets => match p.unitary_matrix {
            Option::Some(rows) => matrix_shape_ok(rows, p.target_indices.len()),
            Option::None => false,
        },
    }
}

/// The validity predicate of the whole library: the bag's name is in the
/// gate-kind table and every field matches the table's rule for it.
pub open spec fn shape_ok(p: GatePropertyView) -> bool {
    match rule_for(p.name) {
        Option::Some(r) => matches_rule(p, r),
        Option::None => false,
    }
}

/// Equality of string slices by content.
fn str_eq(a: &str, b: &str) -> (r: bool)
    ensures
        r == (a@ == b@),
{
    let sa: String = a.to_owned();
    let sb: String = b.to_owned();
    sa == sb
}

/// The executable gate-kind table lookup; agrees with `rule_for` on every
/// name.
pub fn lookup_rule(name: &str) -> (r: Option<ShapeRule>)
    ensures
        r == rule_for(name@),
{
    if str_eq(name, "Identity") || str_eq(name, "X") || str_eq(name, "Y")
        || str_eq(name, "Z") || str_eq(name, "H") || str_eq(name, "S")
        || str_eq(name, "Sdag") || str_eq(name, "T") || str_eq(name, "Tdag")
        || str_eq(name, "SqrtX") || str_eq(name, "SqrtXdag")
        || str_eq(name, "SqrtY") || str_eq(name, "SqrtYdag") {
        Option::Some(ShapeRule {
            targets: TargetArity::Exact(1),
            controls: 0,
            classicals: ClassicalArity::Zero,
            params: 0,
            paulis: PauliArity::Zero,
            matrix: MatrixRule::Forbidden,
        })
    } else if str_eq(name, "RX") || str_eq(name, "RY") || str_eq(name, "RZ")
        || str_eq(name, "U1") {
        Option::Some(ShapeRule {
            targets: TargetArity::Exact(1),
            controls: 0,
            classicals: ClassicalArity::Zero,
            params: 1,
            paulis: PauliArity::Zero,
            matrix: MatrixRule::Forbidden,
        })
    } else if str_eq(name, "U2") {
        Option::Some(ShapeRule {
            targets: TargetArity::Exact(1),
            controls: 0,
            classicals: ClassicalArity::Zero,
            params: 2,
            paulis: PauliArity::Zero,
            matrix: MatrixRule::Forbidden,
        })
    } else if str_eq(name, "U3") {
        Option::Some(ShapeRule {
            targets: TargetArity::Exact(1),
            controls: 0,
            classicals: ClassicalArity::Zero,
            params: 3,
            paulis: PauliArity::Zero,
            matrix: MatrixRule::Forbidden,
        })
    } else if str_eq(name, "CNOT") || str_eq(name, "CZ") {
        Option::Some(ShapeRule {
            targets: TargetArity::Exact(1),
            controls: 1,
            classicals: ClassicalArity::Zero,
            params: 0,
            paulis: PauliArity::Zero,
            matrix: MatrixRule::Forbidden,
        })
    } else if str_eq(name, "SWAP") {
        Option::Some(ShapeRule {
            targets: TargetArity::Exact(2),
            controls: 0,
            classicals: ClassicalArity::Zero,
            params: 0,
            paulis: PauliArity::Zero,
            matrix: MatrixRule::Forbidden,
        })
    } else if str_eq(name, "TOFFOLI") {
        Option::Some(ShapeRule {
            targets: TargetArity::Exact(1),
            controls: 2,
            classicals: ClassicalArity::Zero,
            params: 0,
            paulis: PauliArity::Zero,
            matrix: MatrixRule::Forbidden,
        })
    } else if str_eq(name, "Pauli") {
        Option::Some(ShapeRule {
            targets: TargetArity::Any,
            controls: 0,
            classicals: ClassicalArity::Zero,
            params: 0,
            paulis: PauliArity::EqualTargets,
            matrix: MatrixRule::Forbidden,
        })
    } else if str_eq(name, "PauliRotation") {
        Option::Some(ShapeRule {
            targets: TargetArity::Any,
            controls: 0,
            classicals: ClassicalArity::Zero,
            params: 1,
            paulis: PauliArity::EqualTargets,
            matrix: MatrixRule::Forbidden,
        })
    } else if str_eq(name, "Measurement") {
        Option::Some(ShapeRule {
            targets: TargetArity::Any,
            controls: 0,
            classicals: ClassicalArity::EqualTargets,
            params: 0,
            paulis: PauliArity::Zero,
            matrix: MatrixRule::Forbidden,
        })
    } else if str_eq(name, "UnitaryMatrix") {
        Option::Some(ShapeRule {
            targets: TargetArity::Any,
            controls: 0,
            classicals: ClassicalArity::Zero,
            params: 0,
            paulis: PauliArity::Zero,
            matrix: MatrixRule::SquarePow2Targets,
        })
    } else {
        Option::None
    }
}

/// `2^n` as a `u64`, or `None` when it does not fit.
fn pow2_u64(n: usize) -> (r: Option<u64>)
    ensures
        match r {
            Option::Some(v) => v == pow2(n as nat),
            Option::None => pow2(n as nat) > u64::MAX,
        },
{
    let mut acc: u64 = 1;
    let mut i: usize = 0;
    while i < n
        invariant
            0 <= i <= n,
            acc == pow2(i as nat),
        decreases n - i,
    {
        if acc > 0x7fff_ffff_ffff_ffff {
            proof {
                assert(pow2((i + 1) as nat) == 2 * pow2(i as nat));
                lemma_pow2_increases((i + 1) as nat, n as nat);
            }
            return Option::None;
        }
        acc = acc * 2;
        i = i + 1;
    }
    Option::Some(acc)
}

/// `2^n` is never zero.
pub proof fn lemma_pow2_pos(n: nat)
    ensures
        pow2(n) >= 1,
    decreases n,
{
    if n > 0 {
        lemma_pow2_pos((n - 1) as nat);
    }
}

/// `2^n` does not shrink as `n` grows.
proof fn lemma_pow2_increases(m: nat, n: nat)
    requires
        m <= n,
    ensures
        pow2(m) <= pow2(n),
    decreases n,
{
    if m < n {
        lemma_pow2_increases(m, (n - 1) as nat);
    }
}

/// Checks an already-normalized property bag (no empty matrix placeholder)
/// against the kind table.
pub fn check_shape(prop: &GenericGateProperty) -> (r: bool)
    ensures
        r == shape_ok(prop@),
{
    let rule = match lookup_rule(prop.name.as_str()) {
        Option::Some(rule) => rule,
        Option::None => {
            return false;
        },
    };
    let targets_ok = match rule.targets {
        TargetArity::Exact(n) => prop.target_indices.len() == n,
        TargetArity::Any => true,
    };
    if !targets_ok {
        return false;
    }
    if prop.control_indices.len() != rule.controls {
        return false;
    }
    let classicals_ok = match rule.classicals {
        ClassicalArity::Zero => prop.classical_indices.len() == 0,
        ClassicalArity::EqualTargets => prop.classical_indices.len()
            == prop.target_indices.len(),
    };
    if !classicals_ok {
        return false;
    }
    if prop.params.len() != rule.params {
        return false;
    }
    let paulis_ok = match rule.paulis {
        PauliArity::Zero => prop.pauli_ids.len() == 0,
        PauliArity::EqualTargets => prop.pauli_ids.len() == prop.target_indices.len(),
    };
    if !paulis_ok {
        return false;
    }
    match rule.matrix {
        MatrixRule::Forbidden => match &prop.unitary_matrix {
            Option::Some(_) => false,
            Option::None => true,
        },
        MatrixRule::SquarePow2Targets => match &prop.unitary_matrix {
            Option::Some(rows) => check_matrix_shape(rows, prop.target_indices.len()),
            Option::None => false,
        },
    }
}

/// Checks that a matrix is square with dimension `2^targets`.
fn check_matrix_shape(rows: &Vec<Vec<ComplexEntry>>, targets: usize) -> (r: bool)
    ensures
        r == matrix_shape_ok(rows@.map_values(|row: Vec<ComplexEntry>| row@), targets as nat),
{
    let ghost grows = rows@.map_values(|row: Vec<ComplexEntry>| row@);
    let n = rows.len();
    let dim: u64 = match pow2_u64(targets) {
        Option::Some(v) => v,
        Option::None => {
            proof {
                assert(grows.len() == n as nat);
                assert(n as nat <= u64::MAX as nat);
            }
            return false;
        },
    };
    if n as u64 != dim {
        return false;
    }
    let mut i: usize = 0;
    while i < n
        invariant
            0 <= i <= n,
            n == rows.len(),
            grows == rows@.map_values(|row: Vec<ComplexEntry>| row@),
            grows.len() == n,
            forall|j: int| 0 <= j < i ==> (#[trigger] grows[j]).len() == n,
        decreases n - i,
    {
        if rows[i].len() != n {
            proof {
                assert(grows[i as int] == rows@[i as int]@);
            }
            return false;
        }
        i = i + 1;
    }
    true
}

} // verus!
