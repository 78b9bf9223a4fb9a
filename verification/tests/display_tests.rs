use quantum_gate::gate::QuantumGate;
use quantum_gate::property::{ComplexEntry, GenericGateProperty};

fn bag(
    name: &str,
    targets: Vec<usize>,
    controls: Vec<usize>,
    classicals: Vec<usize>,
    params: Vec<u64>,
    paulis: Vec<u8>,
    matrix: Option<Vec<Vec<ComplexEntry>>>,
) -> GenericGateProperty {
    GenericGateProperty {
        name: name.to_owned(),
        target_indices: targets,
        control_indices: controls,
        classical_indices: classicals,
        params: params,
        pauli_ids: paulis,
        unitary_matrix: matrix,
    }
}

#[test]
fn x_gate_display_string() {
    let g = QuantumGate::from_property(bag("X", vec![0], vec![], vec![], vec![], vec![], None))
        .ok()
        .unwrap();
    assert_eq!(
        g.to_display_string(),
        "QuantumGate(name='X', target_indices=(0,), control_indices=(), \
         classical_indices=(), params=(), pauli_ids=(), unitary_matrix=())"
    );
}

#[test]
fn display_is_deterministic() {
    let g = QuantumGate::from_property(bag(
        "RX",
        vec![2],
        vec![],
        vec![],
        vec![0.5f64.to_bits()],
        vec![],
        None,
    ))
    .ok()
    .unwrap();
    let first = g.to_display_string();
    let second = g.to_display_string();
    assert_eq!(first, second);
}

#[test]
fn single_element_renders_with_trailing_separator() {
    let single = QuantumGate::from_property(bag("X", vec![3], vec![], vec![], vec![], vec![], None))
        .ok()
        .unwrap();
    assert!(single.to_display_string().contains("target_indices=(3,)"));
    let pair = QuantumGate::from_property(bag(
        "SWAP",
        vec![3, 4],
        vec![],
        vec![],
        vec![],
        vec![],
        None,
    ))
    .ok()
    .unwrap();
    assert!(pair.to_display_string().contains("target_indices=(3, 4)"));
}

#[test]
fn params_render_as_bit_patterns() {
    let g = QuantumGate::from_property(bag(
        "RX",
        vec![2],
        vec![],
        vec![],
        vec![0.5f64.to_bits()],
        vec![],
        None,
    ))
    .ok()
    .unwrap();
    let expected = format!("params=({},)", 0.5f64.to_bits());
    assert!(g.to_display_string().contains(&expected));
}

#[test]
fn absent_matrix_renders_as_empty_marker() {
    let g = QuantumGate::from_property(bag(
        "CNOT",
        vec![1],
        vec![0],
        vec![],
        vec![],
        vec![],
        None,
    ))
    .ok()
    .unwrap();
    assert!(g.to_display_string().ends_with("unitary_matrix=())"));
}

#[test]
fn present_matrix_renders_rows() {
    let one = 1.0f64.to_bits();
    let rows = vec![
        vec![
            ComplexEntry { re_bits: one, im_bits: 0 },
            ComplexEntry { re_bits: 0, im_bits: 0 },
        ],
        vec![
            ComplexEntry { re_bits: 0, im_bits: 0 },
            ComplexEntry { re_bits: one, im_bits: 0 },
        ],
    ];
    let g = QuantumGate::from_property(bag(
        "UnitaryMatrix",
        vec![0],
        vec![],
        vec![],
        vec![],
        vec![],
        Some(rows),
    ))
    .ok()
    .unwrap();
    let expected = format!("unitary_matrix=({one}+0i, 0+0i), (0+0i, {one}+0i))");
    assert!(g.to_display_string().ends_with(&expected));
}

#[test]
fn measurement_display_shows_classical_indices() {
    let g = QuantumGate::from_property(bag(
        "Measurement",
        vec![0, 1],
        vec![],
        vec![5, 6],
        vec![],
        vec![],
        None,
    ))
    .ok()
    .unwrap();
    assert!(g.to_display_string().contains("classical_indices=(5, 6)"));
}
