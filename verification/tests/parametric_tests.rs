use quantum_gate::parametric::ParametricQuantumGate;

#[test]
fn parametric_gate_holds_structural_fields() {
    let g = ParametricQuantumGate::new("ParametricRX".to_owned(), vec![1], vec![], vec![]);
    assert_eq!(g.get_name().as_str(), "ParametricRX");
    assert_eq!(g.get_target_indices(), &vec![1]);
    assert!(g.get_control_indices().is_empty());
    assert!(g.get_params().is_empty());
    assert!(g.get_pauli_ids().is_empty());
}

#[test]
fn parametric_gate_accepts_any_name() {
    let g = ParametricQuantumGate::new("SomethingNew".to_owned(), vec![0, 1], vec![2], vec![1, 3]);
    assert_eq!(g.get_name().as_str(), "SomethingNew");
    assert_eq!(g.get_pauli_ids(), &vec![1, 3]);
}

#[test]
fn parametric_equal_constructions_equal_and_hash_equal() {
    let a = ParametricQuantumGate::new("ParametricRZ".to_owned(), vec![4], vec![], vec![]);
    let b = ParametricQuantumGate::new("ParametricRZ".to_owned(), vec![4], vec![], vec![]);
    assert!(a == b);
    assert_eq!(a.hash_value(), b.hash_value());
}

#[test]
fn parametric_different_values_unequal() {
    let a = ParametricQuantumGate::new("ParametricRZ".to_owned(), vec![4], vec![], vec![]);
    let b = ParametricQuantumGate::new("ParametricRZ".to_owned(), vec![5], vec![], vec![]);
    assert!(a != b);
}

#[test]
fn parametric_display_string() {
    let g = ParametricQuantumGate::new("ParametricRX".to_owned(), vec![1], vec![], vec![]);
    assert_eq!(
        g.to_display_string(),
        "ParametricQuantumGate(name='ParametricRX', target_indices=(1,), \
         control_indices=(), pauli_ids=())"
    );
    assert_eq!(g.to_display_string(), g.to_display_string());
}

#[test]
fn parametric_decompose_round_trip() {
    let original = ParametricQuantumGate::new(
        "ParametricPauliRotation".to_owned(),
        vec![0, 2],
        vec![],
        vec![1, 2],
    );
    let (name, targets, controls, paulis) = original.decompose();
    let rebuilt = ParametricQuantumGate::new(name, targets, controls, paulis);
    assert!(rebuilt == original);
    assert_eq!(rebuilt.hash_value(), original.hash_value());
}
