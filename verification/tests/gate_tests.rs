use quantum_gate::gate::QuantumGate;
use quantum_gate::property::{ComplexEntry, GenericGateProperty};

fn bag(
    name: &str,
    targets: Vec<usize>,
    controls: Vec<usize>,
    classicals: Vec<usize>,
    params: Vec<u64>,
    paulis: Vec<u8>,
    matrix: Option<Vec<Vec<ComplexEntry>>>,
) -> GenericGateProperty {
    GenericGateProperty {
        name: name.to_owned(),
        target_indices: targets,
        control_indices: controls,
        classical_indices: classicals,
        params: params,
        pauli_ids: paulis,
        unitary_matrix: matrix,
    }
}

fn entry(re: f64, im: f64) -> ComplexEntry {
    ComplexEntry { re_bits: re.to_bits(), im_bits: im.to_bits() }
}

fn identity_matrix(dim: usize) -> Vec<Vec<ComplexEntry>> {
    let mut rows = Vec::new();
    for i in 0..dim {
        let mut row = Vec::new();
        for j in 0..dim {
            row.push(entry(if i == j { 1.0 } else { 0.0 }, 0.0));
        }
        rows.push(row);
    }
    rows
}

#[test]
fn x_gate_succeeds() {
    let g = QuantumGate::from_property(bag("X", vec![0], vec![], vec![], vec![], vec![], None))
        .ok()
        .expect("X with one target must validate");
    assert_eq!(g.get_name().as_str(), "X");
    assert_eq!(g.get_target_indices(), &vec![0]);
    assert!(g.get_control_indices().is_empty());
    assert!(g.get_params().is_empty());
}

#[test]
fn all_recognized_names_succeed_with_exact_shapes() {
    for name in [
        "Identity", "X", "Y", "Z", "H", "S", "Sdag", "T", "Tdag", "SqrtX", "SqrtXdag", "SqrtY",
        "SqrtYdag",
    ] {
        let r = QuantumGate::from_property(bag(name, vec![0], vec![], vec![], vec![], vec![], None));
        assert!(r.is_ok(), "fixed gate {} must validate", name);
    }
    for name in ["RX", "RY", "RZ", "U1"] {
        let r = QuantumGate::from_property(bag(
            name,
            vec![0],
            vec![],
            vec![],
            vec![0.25f64.to_bits()],
            vec![],
            None,
        ));
        assert!(r.is_ok(), "rotation gate {} must validate", name);
    }
    let u2 = bag("U2", vec![0], vec![], vec![], vec![1u64, 2u64], vec![], None);
    assert!(QuantumGate::from_property(u2).is_ok());
    let u3 = bag("U3", vec![0], vec![], vec![], vec![1u64, 2u64, 3u64], vec![], None);
    assert!(QuantumGate::from_property(u3).is_ok());
    for name in ["CNOT", "CZ"] {
        let r = QuantumGate::from_property(bag(name, vec![1], vec![0], vec![], vec![], vec![], None));
        assert!(r.is_ok(), "controlled gate {} must validate", name);
    }
    let swap = bag("SWAP", vec![0, 1], vec![], vec![], vec![], vec![], None);
    assert!(QuantumGate::from_property(swap).is_ok());
    let toffoli = bag("TOFFOLI", vec![2], vec![0, 1], vec![], vec![], vec![], None);
    assert!(QuantumGate::from_property(toffoli).is_ok());
    let pauli = bag("Pauli", vec![0, 1, 2], vec![], vec![], vec![], vec![1, 2, 3], None);
    assert!(QuantumGate::from_property(pauli).is_ok());
    let pauli_rot = bag(
        "PauliRotation",
        vec![0, 1],
        vec![],
        vec![],
        vec![0.5f64.to_bits()],
        vec![1, 3],
        None,
    );
    assert!(QuantumGate::from_property(pauli_rot).is_ok());
    let measurement = bag("Measurement", vec![0, 1], vec![], vec![2, 3], vec![], vec![], None);
    assert!(QuantumGate::from_property(measurement).is_ok());
    let unitary = bag(
        "UnitaryMatrix",
        vec![0],
        vec![],
        vec![],
        vec![],
        vec![],
        Some(identity_matrix(2)),
    );
    assert!(QuantumGate::from_property(unitary).is_ok());
}

#[test]
fn perturbed_shapes_fail() {
    // one extra target index
    let r = QuantumGate::from_property(bag("X", vec![0, 1], vec![], vec![], vec![], vec![], None));
    assert!(r.is_err());
    // missing target index
    let r = QuantumGate::from_property(bag("X", vec![], vec![], vec![], vec![], vec![], None));
    assert!(r.is_err());
    // one extra parameter
    let r = QuantumGate::from_property(bag(
        "X",
        vec![0],
        vec![],
        vec![],
        vec![0.5f64.to_bits()],
        vec![],
        None,
    ));
    assert!(r.is_err());
    // missing control
    let r = QuantumGate::from_property(bag("CNOT", vec![1], vec![], vec![], vec![], vec![], None));
    assert!(r.is_err());
    // extra control
    let r = QuantumGate::from_property(bag(
        "TOFFOLI",
        vec![2],
        vec![0, 1, 3],
        vec![],
        vec![],
        vec![],
        None,
    ));
    assert!(r.is_err());
    // mismatched Pauli-tag count
    let r = QuantumGate::from_property(bag(
        "Pauli",
        vec![0, 1, 2],
        vec![],
        vec![],
        vec![],
        vec![1, 2],
        None,
    ));
    assert!(r.is_err());
    // mismatched classical count
    let r = QuantumGate::from_property(bag(
        "Measurement",
        vec![0, 1],
        vec![],
        vec![2],
        vec![],
        vec![],
        None,
    ));
    assert!(r.is_err());
    // a matrix supplied to a gate kind that forbids one
    let r = QuantumGate::from_property(bag(
        "X",
        vec![0],
        vec![],
        vec![],
        vec![],
        vec![],
        Some(identity_matrix(2)),
    ));
    assert!(r.is_err());
    // unrecognized name
    let r = QuantumGate::from_property(bag("Bogus", vec![0], vec![], vec![], vec![], vec![], None));
    assert!(r.is_err());
}

#[test]
fn rejection_carries_gate_name() {
    let err = QuantumGate::from_property(bag(
        "RX",
        vec![2],
        vec![],
        vec![],
        vec![],
        vec![],
        None,
    ))
    .err()
    .expect("RX without its parameter must be rejected");
    assert_eq!(err.name.as_str(), "RX");
}

#[test]
fn rx_equal_constructions_equal_and_hash_equal() {
    let a = QuantumGate::from_property(bag(
        "RX",
        vec![2],
        vec![],
        vec![],
        vec![0.5f64.to_bits()],
        vec![],
        None,
    ))
    .ok()
    .expect("RX with one parameter must validate");
    let b = QuantumGate::from_property(bag(
        "RX",
        vec![2],
        vec![],
        vec![],
        vec![0.5f64.to_bits()],
        vec![],
        None,
    ))
    .ok()
    .expect("RX with one parameter must validate");
    assert!(a == b);
    assert_eq!(a.hash_value(), b.hash_value());
}

#[test]
fn different_gates_compare_unequal() {
    let x = QuantumGate::from_property(bag("X", vec![0], vec![], vec![], vec![], vec![], None))
        .ok()
        .unwrap();
    let y = QuantumGate::from_property(bag("Y", vec![0], vec![], vec![], vec![], vec![], None))
        .ok()
        .unwrap();
    assert!(x != y);
    assert_ne!(x.hash_value(), y.hash_value());
}

#[test]
fn unitary_matrix_4x4_succeeds() {
    let g = QuantumGate::from_property(bag(
        "UnitaryMatrix",
        vec![0, 1],
        vec![],
        vec![],
        vec![],
        vec![],
        Some(identity_matrix(4)),
    ))
    .ok()
    .expect("a 4x4 matrix on two targets must validate");
    let m = g.get_unitary_matrix().as_ref().expect("the matrix is kept");
    assert_eq!(m.len(), 4);
    assert!(m.iter().all(|row| row.len() == 4));
}

#[test]
fn unitary_matrix_wrong_dimension_fails() {
    let err = QuantumGate::from_property(bag(
        "UnitaryMatrix",
        vec![0],
        vec![],
        vec![],
        vec![],
        vec![],
        Some(identity_matrix(4)),
    ))
    .err()
    .expect("a 4x4 matrix on one target must be rejected");
    assert_eq!(err.name.as_str(), "UnitaryMatrix");
}

#[test]
fn unitary_matrix_non_square_fails() {
    let mut rows = identity_matrix(2);
    rows[1].pop();
    let r = QuantumGate::from_property(bag(
        "UnitaryMatrix",
        vec![0],
        vec![],
        vec![],
        vec![],
        vec![],
        Some(rows),
    ));
    assert!(r.is_err());
}

#[test]
fn empty_matrix_treated_as_absent() {
    let with_placeholder = QuantumGate::from_property(bag(
        "X",
        vec![0],
        vec![],
        vec![],
        vec![],
        vec![],
        Some(Vec::new()),
    ))
    .ok()
    .expect("an empty matrix placeholder must not cause rejection");
    let without = QuantumGate::from_property(bag("X", vec![0], vec![], vec![], vec![], vec![], None))
        .ok()
        .unwrap();
    assert!(with_placeholder == without);
    assert_eq!(with_placeholder.hash_value(), without.hash_value());
    assert!(with_placeholder.get_unitary_matrix().is_none());
}

#[test]
fn cnot_round_trip() {
    let original = QuantumGate::from_property(bag(
        "CNOT",
        vec![1],
        vec![0],
        vec![],
        vec![],
        vec![],
        None,
    ))
    .ok()
    .expect("CNOT with one target and one control must validate");
    let (name, targets, controls, classicals, params, paulis, matrix) = original.decompose();
    let rebuilt =
        QuantumGate::recompose(name, targets, controls, classicals, params, paulis, matrix)
            .ok()
            .expect("a decomposed valid gate must recompose");
    assert!(rebuilt == original);
    assert_eq!(rebuilt.hash_value(), original.hash_value());
}

#[test]
fn unitary_round_trip_keeps_matrix() {
    let original = QuantumGate::from_property(bag(
        "UnitaryMatrix",
        vec![0, 1],
        vec![],
        vec![],
        vec![],
        vec![],
        Some(identity_matrix(4)),
    ))
    .ok()
    .unwrap();
    let (name, targets, controls, classicals, params, paulis, matrix) = original.decompose();
    assert_eq!(matrix.as_ref().map(|m| m.len()), Some(4));
    let rebuilt =
        QuantumGate::recompose(name, targets, controls, classicals, params, paulis, matrix)
            .ok()
            .unwrap();
    assert!(rebuilt == original);
    assert_eq!(rebuilt.to_display_string(), original.to_display_string());
}

#[test]
fn recompose_validates_like_construction() {
    let r = QuantumGate::recompose(
        "RX".to_owned(),
        vec![2],
        vec![],
        vec![],
        vec![],
        vec![],
        None,
    );
    let err = r.err().expect("recompose must reject what construction rejects");
    assert_eq!(err.name.as_str(), "RX");
}

#[test]
fn cloned_gate_equals_original() {
    let g = QuantumGate::from_property(bag(
        "RX",
        vec![2],
        vec![],
        vec![],
        vec![0.5f64.to_bits()],
        vec![],
        None,
    ))
    .ok()
    .unwrap();
    let c = g.clone();
    assert!(c == g);
    assert_eq!(c.hash_value(), g.hash_value());
    assert_eq!(c.to_display_string(), g.to_display_string());
}

#[test]
fn into_property_returns_validated_fields() {
    let g = QuantumGate::from_property(bag(
        "PauliRotation",
        vec![0, 1],
        vec![],
        vec![],
        vec![0.5f64.to_bits()],
        vec![1, 3],
        None,
    ))
    .ok()
    .unwrap();
    let prop = g.into_property();
    assert_eq!(prop.name.as_str(), "PauliRotation");
    assert_eq!(prop.target_indices, vec![0, 1]);
    assert_eq!(prop.params, vec![0.5f64.to_bits()]);
    assert_eq!(prop.pauli_ids, vec![1, 3]);
    assert!(prop.unitary_matrix.is_none());
}
