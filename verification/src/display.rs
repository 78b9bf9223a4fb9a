//! The canonical string form of gate values: a deterministic,
//! fully-parenthesized rendering that lists the name and every field in a
//! fixed order. A single-element sequence is rendered with a trailing
//! separator (`(3,)`), so single-element and multi-element sequences are
//! never confused; an absent matrix renders as `()`.
//!
//! Parameters and complex matrix entries render as their IEEE-754 bit
//! patterns in decimal, the same exact representation that equality and
//! hashing use.

use vstd::prelude::*;
use vstd::string::StringExecFns;
use crate::property::{ComplexEntry, GatePropertyView, GenericGateProperty};

verus! {

/// The decimal digit character for `d`.
pub open spec fn digit_char(d: nat) -> char {
    if d == 0 {
        '0'
    } else if d == 1 {
        '1'
    } else if d == 2 {
        '2'
    } else if d == 3 {
        '3'
    } else if d == 4 {
        '4'
    } else if d == 5 {
        '5'
    } else if d == 6 {
        '6'
    } else if d == 7 {
        '7'
    } else if d == 8 {
        '8'
    } else {
        '9'
    }
}

/// The usual decimal rendering of a natural number, most significant digit
/// first, no leading zeros.
pub open spec fn decimal(n: nat) -> Seq<char>
    decreases n,
{
    if n < 10 {
        seq![digit_char(n)]
    } else {
        decimal(n / 10).push(digit_char(n % 10))
    }
}

/// Items joined with a comma-space separator.
pub open spec fn joined(items: Seq<Seq<char>>) -> Seq<char>
    decreases items.len(),
{
    if items.len() == 0 {
        Seq::<char>::empty()
    } else if items.len() == 1 {
        items[0]
    } else {
        items[0] + ", "@ + joined(items.drop_first())
    }
}

/// The body of a rendered tuple: the joined items, with a trailing comma
/// marking a single-element sequence.
pub open spec fn tuple_body(items: Seq<Seq<char>>) -> Seq<char> {
    joined(items) + if items.len() == 1 {
        seq![',']
    } else {
        Seq::<char>::empty()
    }
}

/// Index sequences render as decimal numbers.
pub open spec fn rendered_usizes(s: Seq<usize>) -> Seq<Seq<char>> {
    s.map_values(|x: usize| decimal(x as nat))
}

/// Parameter bit patterns render as decimal numbers.
pub open spec fn rendered_u64s(s: Seq<u64>) -> Seq<Seq<char>> {
    s.map_values(|x: u64| decimal(x as nat))
}

/// Pauli tags render as decimal numbers.
pub open spec fn rendered_u8s(s: Seq<u8>) -> Seq<Seq<char>> {
    s.map_values(|x: u8| decimal(x as nat))
}

/// One complex entry renders as `re+imi` over the two bit patterns.
pub open spec fn entry_str(e: ComplexEntry) -> Seq<char> {
    decimal(e.re_bits as nat) + "+"@ + decimal(e.im_bits as nat) + "i"@
}

/// One matrix row renders as a parenthesized tuple of its entries.
pub open spec fn row_str(r: Seq<ComplexEntry>) -> Seq<char> {
    "("@ + tuple_body(r.map_values(|e: ComplexEntry| entry_str(e))) + ")"@
}

/// The matrix field renders as the tuple of its rendered rows; an absent
/// matrix as the explicit empty-sequence marker.
pub open spec fn matrix_str(m: Option<Seq<Seq<ComplexEntry>>>) -> Seq<char> {
    match m {
        Option::None => "()"@,
        Option::Some(rows) => tuple_body(rows.map_values(|r: Seq<ComplexEntry>| row_str(r))),
    }
}

/// The canonical string form of a gate value.
pub open spec fn compat_string_of(p: GatePropertyView) -> Seq<char> {
    "QuantumGate(name='"@ + p.name + "', target_indices=("@ + tuple_body(
        rendered_usizes(p.target_indices),
    ) + "), control_indices=("@ + tuple_body(rendered_usizes(p.control_indices))
        + "), classical_indices=("@ + tuple_body(rendered_usizes(p.classical_indices))
        + "), params=("@ + tuple_body(rendered_u64s(p.params)) + "), pauli_ids=("@ + tuple_body(
        rendered_u8s(p.pauli_ids),
    ) + "), unitary_matrix="@ + matrix_str(p.unitary_matrix) + ")"@
}

/// The canonical string form of a parametric gate value.
pub open spec fn compat_string_parametric_of(p: GatePropertyView) -> Seq<char> {
    "ParametricQuantumGate(name='"@ + p.name + "', target_indices=("@ + tuple_body(
        rendered_usizes(p.target_indices),
    ) + "), control_indices=("@ + tuple_body(rendered_usizes(p.control_indices))
        + "), pauli_ids=("@ + tuple_body(rendered_u8s(p.pauli_ids)) + "))"@
}

/// A one-element tuple body ends in the distinguishing trailing separator.
pub proof fn lemma_single_element_marked(items: Seq<Seq<char>>)
    requires
        items.len() == 1,
    ensures
        tuple_body(items).len() > 0,
        tuple_body(items).last() == ',',
{
    assert(tuple_body(items).last() == ',');
}

/// Joining one more item appends a separator and the item.
proof fn lemma_joined_push(items: Seq<Seq<char>>, x: Seq<char>)
    ensures
        items.len() == 0 ==> joined(items.push(x)) == x,
        items.len() > 0 ==> joined(items.push(x)) == joined(items) + ", "@ + x,
    decreases items.len(),
{
    if items.len() == 0 {
        assert(items.push(x)[0] == x);
    } else if items.len() == 1 {
        assert(items.push(x)[0] == items[0]);
        assert(items.push(x).drop_first() =~= seq![x]);
        assert(joined(seq![x]) == x);
        assert(joined(items) == items[0]);
    } else {
        assert(items.push(x)[0] == items[0]);
        assert(items.push(x).drop_first() =~= items.drop_first().push(x));
        lemma_joined_push(items.drop_first(), x);
        assert(items[0] + ", "@ + (joined(items.drop_first()) + ", "@ + x) =~= (items[0] + ", "@
            + joined(items.drop_first())) + ", "@ + x);
    }
}

/// The decimal digit as a one-character string.
fn digit_str(d: u64) -> (r: &'static str)
    requires
        d < 10,
    ensures
        r@ == seq![digit_char(d as nat)],
{
    proof {
        reveal_strlit("0");
        reveal_strlit("1");
        reveal_strlit("2");
        reveal_strlit("3");
        reveal_strlit("4");
        reveal_strlit("5");
        reveal_strlit("6");
        reveal_strlit("7");
        reveal_strlit("8");
        reveal_strlit("9");
    }
    let r = if d == 0 {
        "0"
    } else if d == 1 {
        "1"
    } else if d == 2 {
        "2"
    } else if d == 3 {
        "3"
    } else if d == 4 {
        "4"
    } else if d == 5 {
        "5"
    } else if d == 6 {
        "6"
    } else if d == 7 {
        "7"
    } else if d == 8 {
        "8"
    } else {
        "9"
    };
    proof {
        assert(r@ =~= seq![digit_char(d as nat)]);
    }
    r
}

/// Renders a number in decimal.
fn u64_to_string(n: u64) -> (s: String)
    ensures
        s@ == decimal(n as nat),
    decreases n,
{
    if n < 10 {
        let s = String::from_str(digit_str(n));
        s
    } else {
        let mut s = u64_to_string(n / 10);
        s.append(digit_str(n % 10));
        proof {
            assert(s@ =~= decimal(n as nat));
        }
        s
    }
}

/// Joins already-rendered parts into a tuple body, with the trailing
/// separator after a single part.
fn join_strings(parts: &Vec<String>) -> (s: String)
    ensures
        s@ == tuple_body(parts@.map_values(|x: String| x@)),
{
    let ghost items = parts@.map_values(|x: String| x@);
    let mut out = String::new();
    let n = parts.len();
    let mut i: usize = 0;
    proof {
        assert(items.take(0) =~= Seq::<Seq<char>>::empty());
    }
    while i < n
        invariant
            0 <= i <= n,
            n == parts.len(),
            items == parts@.map_values(|x: String| x@),
            items.len() == n,
            out@ == joined(items.take(i as int)),
        decreases n - i,
    {
        if i > 0 {
            out.append(", ");
        }
        out.append(parts[i].as_str());
        proof {
            assert(items[i as int] == parts@[i as int]@);
            assert(items.take(i + 1) =~= items.take(i as int).push(items[i as int]));
            lemma_joined_push(items.take(i as int), items[i as int]);
            assert(items.take(i as int).len() == i);
        }
        i = i + 1;
    }
    proof {
        assert(items.take(n as int) =~= items);
    }
    if n == 1 {
        out.append(",");
        proof {
            reveal_strlit(",");
            assert(","@ =~= seq![',']);
        }
    } else {
        proof {
            assert(joined(items) + Seq::<char>::empty() =~= joined(items));
        }
    }
    out
}

/// Renders an index vector as a tuple body.
fn format_usizes(v: &Vec<usize>) -> (s: String)
    ensures
        s@ == tuple_body(rendered_usizes(v@)),
{
    let mut parts: Vec<String> = Vec::new();
    let n = v.len();
    let mut i: usize = 0;
    while i < n
        invariant
            0 <= i <= n,
            n == v.len(),
            parts@.len() == i,
            forall|j: int| 0 <= j < i ==> (#[trigger] parts@[j])@ == decimal(v@[j] as nat),
        decreases n - i,
    {
        parts.push(u64_to_string(v[i] as u64));
        i = i + 1;
    }
    let s = join_strings(&parts);
    proof {
        assert(parts@.map_values(|x: String| x@) =~= rendered_usizes(v@));
    }
    s
}

/// Renders the parameter bit patterns as a tuple body.
fn format_u64s(v: &Vec<u64>) -> (s: String)
    ensures
        s@ == tuple_body(rendered_u64s(v@)),
{
    let mut parts: Vec<String> = Vec::new();
    let n = v.len();
    let mut i: usize = 0;
    while i < n
        invariant
            0 <= i <= n,
            n == v.len(),
            parts@.len() == i,
            forall|j: int| 0 <= j < i ==> (#[trigger] parts@[j])@ == decimal(v@[j] as nat),
        decreases n - i,
    {
        parts.push(u64_to_string(v[i]));
        i = i + 1;
    }
    let s = join_strings(&parts);
    proof {
        assert(parts@.map_values(|x: String| x@) =~= rendered_u64s(v@));
    }
    s
}

/// Renders the Pauli tags as a tuple body.
fn format_u8s(v: &Vec<u8>) -> (s: String)
    ensures
        s@ == tuple_body(rendered_u8s(v@)),
{
    let mut parts: Vec<String> = Vec::new();
    let n = v.len();
    let mut i: usize = 0;
    while i < n
        invariant
            0 <= i <= n,
            n == v.len(),
            parts@.len() == i,
            forall|j: int| 0 <= j < i ==> (#[trigger] parts@[j])@ == decimal(v@[j] as nat),
        decreases n - i,
    {
        parts.push(u64_to_string(v[i] as u64));
        i = i + 1;
    }
    let s = join_strings(&parts);
    proof {
        assert(parts@.map_values(|x: String| x@) =~= rendered_u8s(v@));
    }
    s
}

/// Renders one complex entry as `re+imi`.
fn format_entry(e: ComplexEntry) -> (s: String)
    ensures
        s@ == entry_str(e),
{
    let mut s = u64_to_string(e.re_bits);
    s.append("+");
    let im = u64_to_string(e.im_bits);
    s.append(im.as_str());
    s.append("i");
    proof {
        assert(s@ =~= entry_str(e));
    }
    s
}

/// Renders one matrix row as a parenthesized tuple of entries.
fn format_row(row: &Vec<ComplexEntry>) -> (s: String)
    ensures
        s@ == row_str(row@),
{
    let mut parts: Vec<String> = Vec::new();
    let n = row.len();
    let mut i: usize = 0;
    while i < n
        invariant
            0 <= i <= n,
            n == row.len(),
            parts@.len() == i,
            forall|j: int| 0 <= j < i ==> (#[trigger] parts@[j])@ == entry_str(row@[j]),
        decreases n - i,
    {
        parts.push(format_entry(row[i]));
        i = i + 1;
    }
    let body = join_strings(&parts);
    proof {
        assert(parts@.map_values(|x: String| x@) =~= row@.map_values(
            |e: ComplexEntry| entry_str(e),
        ));
    }
    let mut s = String::from_str("(");
    s.append(body.as_str());
    s.append(")");
    proof {
        assert(s@ =~= row_str(row@));
    }
    s
}

/// Renders the matrix field.
fn format_matrix(m: &Option<Vec<Vec<ComplexEntry>>>) -> (s: String)
    ensures
        s@ == matrix_str(crate::property::matrix_view(*m)),
{
    match m {
        Option::None => String::from_str("()"),
        Option::Some(rows) => {
            let ghost grows = rows@.map_values(|row: Vec<ComplexEntry>| row@);
            let mut parts: Vec<String> = Vec::new();
            let n = rows.len();
            let mut i: usize = 0;
            while i < n
                invariant
                    0 <= i <= n,
                    n == rows.len(),
                    grows == rows@.map_values(|row: Vec<ComplexEntry>| row@),
                    grows.len() == n,
                    parts@.len() == i,
                    forall|j: int| 0 <= j < i ==> (#[trigger] parts@[j])@ == row_str(grows[j]),
                decreases n - i,
            {
                let part = format_row(&rows[i]);
                proof {
                    assert(grows[i as int] == rows@[i as int]@);
                }
                parts.push(part);
                i = i + 1;
            }
            let s = join_strings(&parts);
            proof {
                assert(parts@.map_values(|x: String| x@) =~= grows.map_values(
                    |r: Seq<ComplexEntry>| row_str(r),
                ));
            }
            s
        },
    }
}

impl GenericGateProperty {
    /// The canonical string form of a (validated) gate value's fields:
    /// deterministic, and reproducible byte for byte across runs and
    /// processes.
    pub fn get_compat_string(&self) -> (s: String)
        ensures
            s@ == compat_string_of(self@),
    {
        let mut out = String::from_str("QuantumGate(name='");
        out.append(self.name.as_str());
        out.append("', target_indices=(");
        let targets = format_usizes(&self.target_indices);
        out.append(targets.as_str());
        out.append("), control_indices=(");
        let controls = format_usizes(&self.control_indices);
        out.append(controls.as_str());
        out.append("), classical_indices=(");
        let classicals = format_usizes(&self.classical_indices);
        out.append(classicals.as_str());
        out.append("), params=(");
        let params = format_u64s(&self.params);
        out.append(params.as_str());
        out.append("), pauli_ids=(");
        let paulis = format_u8s(&self.pauli_ids);
        out.append(paulis.as_str());
        out.append("), unitary_matrix=");
        let matrix = format_matrix(&self.unitary_matrix);
        out.append(matrix.as_str());
        out.append(")");
        proof {
            assert(out@ =~= compat_string_of(self@));
        }
        out
    }

    /// The canonical string form of a parametric gate value's fields.
    pub fn get_compat_string_parametric(&self) -> (s: String)
        ensures
            s@ == compat_string_parametric_of(self@),
    {
        let mut out = String::from_str("ParametricQuantumGate(name='");
        out.append(self.name.as_str());
        out.append("', target_indices=(");
        let targets = format_usizes(&self.target_indices);
        out.append(targets.as_str());
        out.append("), control_indices=(");
        let controls = format_usizes(&self.control_indices);
        out.append(controls.as_str());
        out.append("), pauli_ids=(");
        let paulis = format_u8s(&self.pauli_ids);
        out.append(paulis.as_str());
        out.append("))");
        proof {
            assert(out@ =~= compat_string_parametric_of(self@));
        }
        out
    }
}

} // verus!
