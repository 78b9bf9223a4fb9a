//! The raw property bag that gate construction starts from, and its
//! mathematical view.

use vstd::prelude::*;

verus! {

/// One complex matrix entry, held as the IEEE-754 bit patterns of its real
/// and imaginary components. Equality and hashing of gate values are defined
/// over this exact representation, never over approximate numeric equality.
#[derive(Clone, Copy, PartialEq, Eq, Structural, Debug, Hash)]
pub struct ComplexEntry {
    pub re_bits: u64,
    pub im_bits: u64,
}

/// The raw, unvalidated input record for gate construction: a loosely
/// constrained bag of fields. Validation against the kind table turns
/// it into a `QuantumGate`.
///
/// `params` holds the IEEE-754 bit patterns of the 64-bit floating-point
/// parameters (rotation angles and the like).
#[derive(Clone, Debug)]
pub struct GenericGateProperty {
    pub name: String,
    pub target_indices: Vec<usize>,
    pub control_indices: Vec<usize>,
    pub classical_indices: Vec<usize>,
    pub params: Vec<u64>,
    pub pauli_ids: Vec<u8>,
    pub unitary_matrix: Option<Vec<Vec<ComplexEntry>>>,
}

/// The mathematical view of a property bag: every sequence field as a `Seq`.
#[verifier::ext_equal]
pub ghost struct GatePropertyView {
    pub name: Seq<char>,
    pub target_indices: Seq<usize>,
    pub control_indices: Seq<usize>,
    pub classical_indices: Seq<usize>,
    pub params: Seq<u64>,
    pub pauli_ids: Seq<u8>,
    pub unitary_matrix: Option<Seq<Seq<ComplexEntry>>>,
}

/// View of an optional matrix: each row as a sequence of entries.
pub open spec fn matrix_view(m: Option<Vec<Vec<ComplexEntry>>>) -> Option<Seq<Seq<ComplexEntry>>> {
    match m {
        Option::Some(rows) => Option::Some(rows@.map_values(|row: Vec<ComplexEntry>| row@)),
        Option::None => Option::None,
    }
}

impl View for GenericGateProperty {
    type V = GatePropertyView;

    open spec fn view(&self) -> GatePropertyView {
        GatePropertyView {
            name: self.name@,
            target_indices: self.target_indices@,
            control_indices: self.control_indices@,
            classical_indices: self.classical_indices@,
            params: self.params@,
            pauli_ids: self.pauli_ids@,
            unitary_matrix: matrix_view(self.unitary_matrix),
        }
    }
}

/// An element-for-element copy of a vector of plain values.
pub fn copy_vec<T: Copy>(v: &Vec<T>) -> (r: Vec<T>)
    ensures
        r@ == v@,
{
    let mut out: Vec<T> = Vec::new();
    let n = v.len();
    let mut i: usize = 0;
    while i < n
        invariant
            0 <= i <= n,
            n == v.len(),
            out@ == v@.take(i as int),
        decreases n - i,
    {
        out.push(v[i]);
        proof {
            assert(out@ =~= v@.take(i + 1));
        }
        i = i + 1;
    }
    proof {
        assert(out@ =~= v@);
    }
    out
}

/// A row-for-row copy of a complex matrix.
pub fn copy_matrix(rows: &Vec<Vec<ComplexEntry>>) -> (r: Vec<Vec<ComplexEntry>>)
    ensures
        r@.map_values(|row: Vec<ComplexEntry>| row@) == rows@.map_values(
            |row: Vec<ComplexEntry>| row@,
        ),
{
    let mut out: Vec<Vec<ComplexEntry>> = Vec::new();
    let n = rows.len();
    let mut i: usize = 0;
    while i < n
        invariant
            0 <= i <= n,
            n == rows.len(),
            out@.len() == i,
            forall|j: int| 0 <= j < i ==> (#[trigger] out@[j])@ == rows@[j]@,
        decreases n - i,
    {
        out.push(copy_vec(&rows[i]));
        i = i + 1;
    }
    proof {
        assert(out@.map_values(|row: Vec<ComplexEntry>| row@) =~= rows@.map_values(
            |row: Vec<ComplexEntry>| row@,
        ));
    }
    out
}

/// Element-wise equality of index vectors.
pub fn vec_eq_usize(a: &Vec<usize>, b: &Vec<usize>) -> (r: bool)
    ensures
        r == (a@ == b@),
{
    if a.len() != b.len() {
        return false;
    }
    let n = a.len();
    let mut i: usize = 0;
    while i < n
        invariant
            0 <= i <= n,
            n == a.len(),
            a@.len() == b@.len(),
            forall|j: int| 0 <= j < i ==> a@[j] == b@[j],
        decreases n - i,
    {
        if a[i] != b[i] {
            return false;
        }
        i = i + 1;
    }
    proof {
        assert(a@ =~= b@);
    }
    true
}

/// Element-wise equality of parameter bit-pattern vectors.
pub fn vec_eq_u64(a: &Vec<u64>, b: &Vec<u64>) -> (r: bool)
    ensures
        r == (a@ == b@),
{
    if a.len() != b.len() {
        return false;
    }
    let n = a.len();
    let mut i: usize = 0;
    while i < n
        invariant
            0 <= i <= n,
            n == a.len(),
            a@.len() == b@.len(),
            forall|j: int| 0 <= j < i ==> a@[j] == b@[j],
        decreases n - i,
    {
        if a[i] != b[i] {
            return false;
        }
        i = i + 1;
    }
    proof {
        assert(a@ =~= b@);
    }
    true
}

/// Element-wise equality of Pauli-tag vectors.
pub fn vec_eq_u8(a: &Vec<u8>, b: &Vec<u8>) -> (r: bool)
    ensures
        r == (a@ == b@),
{
    if a.len() != b.len() {
        return false;
    }
    let n = a.len();
    let mut i: usize = 0;
    while i < n
        invariant
            0 <= i <= n,
            n == a.len(),
            a@.len() == b@.len(),
            forall|j: int| 0 <= j < i ==> a@[j] == b@[j],
        decreases n - i,
    {
        if a[i] != b[i] {
            return false;
        }
        i = i + 1;
    }
    proof {
        assert(a@ =~= b@);
    }
    true
}

/// Entry-wise equality of one matrix row; entries compare by exact bit
/// patterns.
pub fn row_eq(a: &Vec<ComplexEntry>, b: &Vec<ComplexEntry>) -> (r: bool)
    ensures
        r == (a@ == b@),
{
    if a.len() != b.len() {
        return false;
    }
    let n = a.len();
    let mut i: usize = 0;
    while i < n
        invariant
            0 <= i <= n,
            n == a.len(),
            a@.len() == b@.len(),
            forall|j: int| 0 <= j < i ==> a@[j] == b@[j],
        decreases n - i,
    {
        if a[i] != b[i] {
            return false;
        }
        i = i + 1;
    }
    proof {
        assert(a@ =~= b@);
    }
    true
}

/// Row-wise equality of complex matrices.
pub fn matrix_eq(a: &Vec<Vec<ComplexEntry>>, b: &Vec<Vec<ComplexEntry>>) -> (r: bool)
    ensures
        r == (a@.map_values(|row: Vec<ComplexEntry>| row@) == b@.map_values(
            |row: Vec<ComplexEntry>| row@,
        )),
{
    let ghost ma = a@.map_values(|row: Vec<ComplexEntry>| row@);
    let ghost mb = b@.map_values(|row: Vec<ComplexEntry>| row@);
    if a.len() != b.len() {
        proof {
            assert(ma.len() == a@.len());
            assert(mb.len() == b@.len());
        }
        return false;
    }
    let n = a.len();
    let mut i: usize = 0;
    while i < n
        invariant
            0 <= i <= n,
            n == a.len(),
            a@.len() == b@.len(),
            ma == a@.map_values(|row: Vec<ComplexEntry>| row@),
            mb == b@.map_values(|row: Vec<ComplexEntry>| row@),
            forall|j: int| 0 <= j < i ==> #[trigger] ma[j] == mb[j],
        decreases n - i,
    {
        if !row_eq(&a[i], &b[i]) {
            proof {
                assert(ma[i as int] == a@[i as int]@);
                assert(mb[i as int] == b@[i as int]@);
            }
            return false;
        }
        proof {
            assert(ma[i as int] == a@[i as int]@);
            assert(mb[i as int] == b@[i as int]@);
        }
        i = i + 1;
    }
    proof {
        assert(ma =~= mb);
    }
    true
}

/// Equality of optional matrices: both absent, or both present and equal
/// row for row.
pub fn opt_matrix_eq(a: &Option<Vec<Vec<ComplexEntry>>>, b: &Option<Vec<Vec<ComplexEntry>>>) -> (r:
    bool)
    ensures
        r == (matrix_view(*a) == matrix_view(*b)),
{
    match (a, b) {
        (Option::Some(ra), Option::Some(rb)) => matrix_eq(ra, rb),
        (Option::None, Option::None) => true,
        _ => false,
    }
}

} // verus!
