//! Deterministic, order-sensitive hashing of gate values.
//!
//! Every field is fed, behind a length prefix, into a 64-bit
//! Fowler-Noll-Vo-style accumulator; floating-point parameters and complex
//! matrix entries enter as their IEEE-754 bit patterns. The hash is a pure
//! function of a gate value's fields, so equal gate values always hash equal.

use vstd::prelude::*;
use crate::property::{matrix_view, ComplexEntry, GatePropertyView, GenericGateProperty};

verus! {

/// The accumulator's starting state.
pub const HASH_OFFSET: u64 = 0xcbf29ce484222325;

/// The accumulator's multiplier.
pub const HASH_PRIME: u64 = 0x100000001b3;

/// One accumulator step: absorb a word, then multiply (wrapping).
pub open spec fn mix(h: u64, w: u64) -> u64 {
    (h ^ w).wrapping_mul(HASH_PRIME)
}

/// Absorbs a word stream, left to right.
pub open spec fn accum(h: u64, ws: Seq<u64>) -> u64
    decreases ws.len(),
{
    if ws.len() == 0 {
        h
    } else {
        accum(mix(h, ws[0]), ws.drop_first())
    }
}

/// The word stream of a gate value's name: its length, then its characters.
pub open spec fn words_of_name(s: Seq<char>) -> Seq<u64> {
    seq![s.len() as u64] + s.map_values(|c: char| c as u64)
}

/// The word stream of an index sequence: its length, then its elements.
pub open spec fn words_of_usizes(s: Seq<usize>) -> Seq<u64> {
    seq![s.len() as u64] + s.map_values(|x: usize| x as u64)
}

/// The word stream of the parameter bit patterns: length, then elements.
pub open spec fn words_of_u64s(s: Seq<u64>) -> Seq<u64> {
    seq![s.len() as u64] + s
}

/// The word stream of the Pauli tags: length, then elements.
pub open spec fn words_of_u8s(s: Seq<u8>) -> Seq<u64> {
    seq![s.len() as u64] + s.map_values(|x: u8| x as u64)
}

/// The word stream of one matrix row's entries: real and imaginary bit
/// patterns, in order.
pub open spec fn entry_words(r: Seq<ComplexEntry>) -> Seq<u64>
    decreases r.len(),
{
    if r.len() == 0 {
        Seq::<u64>::empty()
    } else {
        seq![r[0].re_bits, r[0].im_bits] + entry_words(r.drop_first())
    }
}

/// The word stream of one matrix row: its length, then its entries.
pub open spec fn words_of_row(r: Seq<ComplexEntry>) -> Seq<u64> {
    seq![r.len() as u64] + entry_words(r)
}

/// The word stream of a matrix's rows, in order.
pub open spec fn rows_words(rows: Seq<Seq<ComplexEntry>>) -> Seq<u64>
    decreases rows.len(),
{
    if rows.len() == 0 {
        Seq::<u64>::empty()
    } else {
        words_of_row(rows[0]) + rows_words(rows.drop_first())
    }
}

/// The word stream of the optional matrix: a presence marker, then for a
/// present matrix its row count and rows.
pub open spec fn words_of_matrix(m: Option<Seq<Seq<ComplexEntry>>>) -> Seq<u64> {
    match m {
        Option::None => seq![0u64],
        Option::Some(rows) => seq![1u64, rows.len() as u64] + rows_words(rows),
    }
}

/// The full word stream of a gate value, every field in the fixed order.
pub open spec fn words_of_prop(p: GatePropertyView) -> Seq<u64> {
    words_of_name(p.name) + words_of_usizes(p.target_indices) + words_of_usizes(
        p.control_indices,
    ) + words_of_usizes(p.classical_indices) + words_of_u64s(p.params) + words_of_u8s(
        p.pauli_ids,
    ) + words_of_matrix(p.unitary_matrix)
}

/// The hash of a gate value.
pub open spec fn gate_hash_of(p: GatePropertyView) -> u64 {
    accum(HASH_OFFSET, words_of_prop(p))
}

/// The word stream of a parametric gate value: its structural fields plus
/// its (always empty) parameter list, in the fixed order.
pub open spec fn words_of_parametric(p: GatePropertyView) -> Seq<u64> {
    words_of_name(p.name) + words_of_usizes(p.target_indices) + words_of_usizes(
        p.control_indices,
    ) + words_of_u64s(p.params) + words_of_u8s(p.pauli_ids)
}

/// The hash of a parametric gate value.
pub open spec fn parametric_hash_of(p: GatePropertyView) -> u64 {
    accum(HASH_OFFSET, words_of_parametric(p))
}

/// Absorbing a single word is one mix step.
pub proof fn lemma_accum_one(h: u64, w: u64)
    ensures
        accum(h, seq![w]) == mix(h, w),
{
    reveal_with_fuel(accum, 3);
    assert(seq![w].drop_first() =~= Seq::<u64>::empty());
    assert(seq![w][0] == w);
}

/// Absorbing two words is two mix steps.
pub proof fn lemma_accum_two(h: u64, a: u64, b: u64)
    ensures
        accum(h, seq![a, b]) == mix(mix(h, a), b),
{
    assert(seq![a, b].drop_first() =~= seq![b]);
    lemma_accum_one(mix(h, a), b);
}

/// Absorbing one more word at the end is one more mix step.
pub proof fn lemma_accum_push(h: u64, ws: Seq<u64>, w: u64)
    ensures
        accum(h, ws.push(w)) == mix(accum(h, ws), w),
    decreases ws.len(),
{
    if ws.len() == 0 {
        lemma_accum_one(h, w);
        assert(ws.push(w) =~= seq![w]);
    } else {
        assert(ws.push(w)[0] == ws[0]);
        assert(ws.push(w).drop_first() =~= ws.drop_first().push(w));
        lemma_accum_push(mix(h, ws[0]), ws.drop_first(), w);
    }
}

/// Absorbing a concatenation absorbs the two parts in order.
pub proof fn lemma_accum_concat(h: u64, a: Seq<u64>, b: Seq<u64>)
    ensures
        accum(h, a + b) == accum(accum(h, a), b),
    decreases a.len(),
{
    if a.len() == 0 {
        assert(a + b =~= b);
    } else {
        assert((a + b)[0] == a[0]);
        assert((a + b).drop_first() =~= a.drop_first() + b);
        lemma_accum_concat(mix(h, a[0]), a.drop_first(), b);
    }
}

/// The entry words of a row grown by one entry are the row's entry words
/// followed by that entry's two words.
proof fn lemma_entry_words_push(r: Seq<ComplexEntry>, e: ComplexEntry)
    ensures
        entry_words(r.push(e)) == entry_words(r) + seq![e.re_bits, e.im_bits],
    decreases r.len(),
{
    if r.len() == 0 {
        assert(r.push(e)[0] == e);
        assert(r.push(e).drop_first() =~= r);
        assert(entry_words(r.push(e)) =~= entry_words(r) + seq![e.re_bits, e.im_bits]);
    } else {
        assert(r.push(e)[0] == r[0]);
        assert(r.push(e).drop_first() =~= r.drop_first().push(e));
        lemma_entry_words_push(r.drop_first(), e);
        assert(entry_words(r.push(e)) =~= entry_words(r) + seq![e.re_bits, e.im_bits]);
    }
}

/// The row words of a matrix grown by one row are the matrix's row words
/// followed by that row's words.
proof fn lemma_rows_words_push(rows: Seq<Seq<ComplexEntry>>, row: Seq<ComplexEntry>)
    ensures
        rows_words(rows.push(row)) == rows_words(rows) + words_of_row(row),
    decreases rows.len(),
{
    if rows.len() == 0 {
        assert(rows.push(row)[0] == row);
        assert(rows.push(row).drop_first() =~= rows);
        assert(rows_words(rows.push(row)) =~= rows_words(rows) + words_of_row(row));
    } else {
        assert(rows.push(row)[0] == rows[0]);
        assert(rows.push(row).drop_first() =~= rows.drop_first().push(row));
        lemma_rows_words_push(rows.drop_first(), row);
        assert(rows_words(rows.push(row)) =~= rows_words(rows) + words_of_row(row));
    }
}

/// One accumulator step, executably.
fn mix_word(h: u64, w: u64) -> (r: u64)
    ensures
        r == mix(h, w),
{
    (h ^ w).wrapping_mul(HASH_PRIME)
}

/// Absorbs an index vector: length, then elements.
fn accum_usizes(h: u64, v: &Vec<usize>) -> (r: u64)
    ensures
        r == accum(h, words_of_usizes(v@)),
{
    let ghost m = v@.map_values(|x: usize| x as u64);
    let n = v.len();
    let mut acc = mix_word(h, n as u64);
    proof {
        lemma_accum_one(h, v@.len() as u64);
        assert(seq![v@.len() as u64] + m.take(0) =~= seq![v@.len() as u64]);
    }
    let mut i: usize = 0;
    while i < n
        invariant
            0 <= i <= n,
            n == v.len(),
            m == v@.map_values(|x: usize| x as u64),
            acc == accum(h, seq![v@.len() as u64] + m.take(i as int)),
        decreases n - i,
    {
        proof {
            assert(m[i as int] == v@[i as int] as u64);
            assert((seq![v@.len() as u64] + m.take(i as int)).push(m[i as int]) =~= seq![
                v@.len() as u64,
            ] + m.take(i + 1));
            lemma_accum_push(h, seq![v@.len() as u64] + m.take(i as int), m[i as int]);
        }
        acc = mix_word(acc, v[i] as u64);
        i = i + 1;
    }
    proof {
        assert(m.take(n as int) =~= m);
    }
    acc
}

/// Absorbs the parameter bit patterns: length, then elements.
fn accum_u64s(h: u64, v: &Vec<u64>) -> (r: u64)
    ensures
        r == accum(h, words_of_u64s(v@)),
{
    let n = v.len();
    let mut acc = mix_word(h, n as u64);
    proof {
        lemma_accum_one(h, v@.len() as u64);
        assert(seq![v@.len() as u64] + v@.take(0) =~= seq![v@.len() as u64]);
    }
    let mut i: usize = 0;
    while i < n
        invariant
            0 <= i <= n,
            n == v.len(),
            acc == accum(h, seq![v@.len() as u64] + v@.take(i as int)),
        decreases n - i,
    {
        proof {
            assert((seq![v@.len() as u64] + v@.take(i as int)).push(v@[i as int]) =~= seq![
                v@.len() as u64,
            ] + v@.take(i + 1));
            lemma_accum_push(h, seq![v@.len() as u64] + v@.take(i as int), v@[i as int]);
        }
        acc = mix_word(acc, v[i]);
        i = i + 1;
    }
    proof {
        assert(v@.take(n as int) =~= v@);
    }
    acc
}

/// Absorbs the Pauli tags: length, then elements.
fn accum_u8s(h: u64, v: &Vec<u8>) -> (r: u64)
    ensures
        r == accum(h, words_of_u8s(v@)),
{
    let ghost m = v@.map_values(|x: u8| x as u64);
    let n = v.len();
    let mut acc = mix_word(h, n as u64);
    proof {
        lemma_accum_one(h, v@.len() as u64);
        assert(seq![v@.len() as u64] + m.take(0) =~= seq![v@.len() as u64]);
    }
    let mut i: usize = 0;
    while i < n
        invariant
            0 <= i <= n,
            n == v.len(),
            m == v@.map_values(|x: u8| x as u64),
            acc == accum(h, seq![v@.len() as u64] + m.take(i as int)),
        decreases n - i,
    {
        proof {
            assert(m[i as int] == v@[i as int] as u64);
            assert((seq![v@.len() as u64] + m.take(i as int)).push(m[i as int]) =~= seq![
                v@.len() as u64,
            ] + m.take(i + 1));
            lemma_accum_push(h, seq![v@.len() as u64] + m.take(i as int), m[i as int]);
        }
        acc = mix_word(acc, v[i] as u64);
        i = i + 1;
    }
    proof {
        assert(m.take(n as int) =~= m);
    }
    acc
}

/// Absorbs a name field: length, then characters.
fn accum_name(h: u64, s: &String) -> (r: u64)
    ensures
        r == accum(h, words_of_name(s@)),
{
    let ghost m = s@.map_values(|c: char| c as u64);
    let n = s.as_str().unicode_len();
    let mut acc = mix_word(h, n as u64);
    proof {
        lemma_accum_one(h, s@.len() as u64);
        assert(seq![s@.len() as u64] + m.take(0) =~= seq![s@.len() as u64]);
    }
    let mut i: usize = 0;
    while i < n
        invariant
            0 <= i <= n,
            n as nat == s@.len(),
            m == s@.map_values(|c: char| c as u64),
            acc == accum(h, seq![s@.len() as u64] + m.take(i as int)),
        decreases n - i,
    {
        let c = s.as_str().get_char(i);
        proof {
            assert(m[i as int] == s@[i as int] as u64);
            assert((seq![s@.len() as u64] + m.take(i as int)).push(m[i as int]) =~= seq![
                s@.len() as u64,
            ] + m.take(i + 1));
            lemma_accum_push(h, seq![s@.len() as u64] + m.take(i as int), m[i as int]);
        }
        acc = mix_word(acc, c as u64);
        i = i + 1;
    }
    proof {
        assert(m.take(n as int) =~= m);
    }
    acc
}

/// Absorbs one matrix row: length, then entry bit patterns.
fn accum_row(h: u64, row: &Vec<ComplexEntry>) -> (r: u64)
    ensures
        r == accum(h, words_of_row(row@)),
{
    let n = row.len();
    let mut acc = mix_word(h, n as u64);
    proof {
        lemma_accum_one(h, row@.len() as u64);
        assert(seq![row@.len() as u64] + entry_words(row@.take(0)) =~= seq![row@.len() as u64]);
    }
    let mut i: usize = 0;
    while i < n
        invariant
            0 <= i <= n,
            n == row.len(),
            acc == accum(h, seq![row@.len() as u64] + entry_words(row@.take(i as int))),
        decreases n - i,
    {
        let e = row[i];
        proof {
            assert(row@.take(i + 1) =~= row@.take(i as int).push(row@[i as int]));
            lemma_entry_words_push(row@.take(i as int), row@[i as int]);
            assert((seq![row@.len() as u64] + entry_words(row@.take(i as int))).push(
                e.re_bits,
            ).push(e.im_bits) =~= seq![row@.len() as u64] + entry_words(row@.take(i + 1)));
            lemma_accum_push(
                h,
                seq![row@.len() as u64] + entry_words(row@.take(i as int)),
                e.re_bits,
            );
            lemma_accum_push(
                h,
                (seq![row@.len() as u64] + entry_words(row@.take(i as int))).push(e.re_bits),
                e.im_bits,
            );
        }
        acc = mix_word(acc, e.re_bits);
        acc = mix_word(acc, e.im_bits);
        i = i + 1;
    }
    proof {
        assert(row@.take(n as int) =~= row@);
    }
    acc
}

/// Absorbs the optional matrix: presence marker, then rows.
fn accum_matrix(h: u64, m: &Option<Vec<Vec<ComplexEntry>>>) -> (r: u64)
    ensures
        r == accum(h, words_of_matrix(matrix_view(*m))),
{
    match m {
        Option::None => {
            proof {
                lemma_accum_one(h, 0u64);
            }
            mix_word(h, 0)
        },
        Option::Some(rows) => {
            let ghost grows = rows@.map_values(|row: Vec<ComplexEntry>| row@);
            let n = rows.len();
            let mut acc = mix_word(mix_word(h, 1), n as u64);
            proof {
                lemma_accum_two(h, 1u64, grows.len() as u64);
                assert(seq![1u64, grows.len() as u64] + rows_words(grows.take(0)) =~= seq![
                    1u64,
                    grows.len() as u64,
                ]);
            }
            let mut i: usize = 0;
            while i < n
                invariant
                    0 <= i <= n,
                    n == rows.len(),
                    grows == rows@.map_values(|row: Vec<ComplexEntry>| row@),
                    grows.len() == n,
                    acc == accum(
                        h,
                        seq![1u64, grows.len() as u64] + rows_words(grows.take(i as int)),
                    ),
                decreases n - i,
            {
                proof {
                    assert(grows[i as int] == rows@[i as int]@);
                    assert(grows.take(i + 1) =~= grows.take(i as int).push(grows[i as int]));
                    lemma_rows_words_push(grows.take(i as int), grows[i as int]);
                    lemma_accum_concat(
                        h,
                        seq![1u64, grows.len() as u64] + rows_words(grows.take(i as int)),
                        words_of_row(grows[i as int]),
                    );
                    assert((seq![1u64, grows.len() as u64] + rows_words(grows.take(i as int)))
                        + words_of_row(grows[i as int]) =~= seq![1u64, grows.len() as u64]
                        + rows_words(grows.take(i + 1)));
                }
                acc = accum_row(acc, &rows[i]);
                i = i + 1;
            }
            proof {
                assert(grows.take(n as int) =~= grows);
            }
            acc
        },
    }
}

/// The hash of a property bag's fields; pure in the bag's value.
pub fn hash_property(prop: &GenericGateProperty) -> (r: u64)
    ensures
        r == gate_hash_of(prop@),
{
    let ghost p = prop@;
    let mut h = HASH_OFFSET;
    let ghost w1 = words_of_name(p.name);
    let ghost w2 = words_of_usizes(p.target_indices);
    let ghost w3 = words_of_usizes(p.control_indices);
    let ghost w4 = words_of_usizes(p.classical_indices);
    let ghost w5 = words_of_u64s(p.params);
    let ghost w6 = words_of_u8s(p.pauli_ids);
    let ghost w7 = words_of_matrix(p.unitary_matrix);
    h = accum_name(h, &prop.name);
    h = accum_usizes(h, &prop.target_indices);
    proof {
        lemma_accum_concat(HASH_OFFSET, w1, w2);
    }
    h = accum_usizes(h, &prop.control_indices);
    proof {
        lemma_accum_concat(HASH_OFFSET, w1 + w2, w3);
    }
    h = accum_usizes(h, &prop.classical_indices);
    proof {
        lemma_accum_concat(HASH_OFFSET, w1 + w2 + w3, w4);
    }
    h = accum_u64s(h, &prop.params);
    proof {
        lemma_accum_concat(HASH_OFFSET, w1 + w2 + w3 + w4, w5);
    }
    h = accum_u8s(h, &prop.pauli_ids);
    proof {
        lemma_accum_concat(HASH_OFFSET, w1 + w2 + w3 + w4 + w5, w6);
    }
    h = accum_matrix(h, &prop.unitary_matrix);
    proof {
        lemma_accum_concat(HASH_OFFSET, w1 + w2 + w3 + w4 + w5 + w6, w7);
    }
    h
}

/// The hash of a parametric gate's fields; pure in their values.
pub fn hash_parametric_property(prop: &GenericGateProperty) -> (r: u64)
    ensures
        r == parametric_hash_of(prop@),
{
    let ghost p = prop@;
    let mut h = HASH_OFFSET;
    let ghost w1 = words_of_name(p.name);
    let ghost w2 = words_of_usizes(p.target_indices);
    let ghost w3 = words_of_usizes(p.control_indices);
    let ghost w4 = words_of_u64s(p.params);
    let ghost w5 = words_of_u8s(p.pauli_ids);
    h = accum_name(h, &prop.name);
    h = accum_usizes(h, &prop.target_indices);
    proof {
        lemma_accum_concat(HASH_OFFSET, w1, w2);
    }
    h = accum_usizes(h, &prop.control_indices);
    proof {
        lemma_accum_concat(HASH_OFFSET, w1 + w2, w3);
    }
    h = accum_u64s(h, &prop.params);
    proof {
        lemma_accum_concat(HASH_OFFSET, w1 + w2 + w3, w4);
    }
    h = accum_u8s(h, &prop.pauli_ids);
    proof {
        lemma_accum_concat(HASH_OFFSET, w1 + w2 + w3 + w4, w5);
    }
    h
}

} // verus!
