//! Binary payloads: which samples go into one, and in what order.

use vstd::prelude::*;
use crate::scalar::{
    decode, encode, lemma_decode_encode, lemma_encode_len, write_data, Scalar, NAN_BITS,
};

verus! {

/// The smaller of two lengths.
pub open spec fn shortest(a: nat, b: nat) -> nat {
    if a <= b {
        a
    } else {
        b
    }
}

/// The samples of a two-column record: as many rows as the shorter column
/// has, each row its two values in order.
pub open spec fn rows2(x1: Seq<Scalar>, x2: Seq<Scalar>) -> Seq<Scalar> {
    Seq::new(
        2 * shortest(x1.len(), x2.len()),
        |i: int|
            if i % 2 == 0 {
                x1[i / 2]
            } else {
                x2[i / 2]
            },
    )
}

/// The samples of a three-column record: as many rows as the shortest
/// column has, each row its three values in order.
pub open spec fn rows3(x1: Seq<Scalar>, x2: Seq<Scalar>, x3: Seq<Scalar>) -> Seq<Scalar> {
    Seq::new(
        3 * shortest(shortest(x1.len(), x2.len()), x3.len()),
        |i: int|
            if i % 3 == 0 {
                x1[i / 3]
            } else if i % 3 == 1 {
                x2[i / 3]
            } else {
                x3[i / 3]
            },
    )
}

/// The samples of a matrix of `num_rows * num_cols` cells, row by row: the
/// sample given for a cell where there is one, and a NaN where the samples
/// have run out. Samples beyond the last cell are not part of the matrix.
pub open spec fn cells(mat: Seq<Scalar>, num_rows: usize, num_cols: usize) -> Seq<Scalar> {
    Seq::new(
        (num_rows * num_cols) as nat,
        |i: int|
            if i < mat.len() {
                mat[i]
            } else {
                Scalar { bits: NAN_BITS }
            },
    )
}

/// The payload of a matrix reads back as the matrix: one sample for each
/// cell, the samples that were given each in its place, and a NaN in every
/// cell that they did not reach.
pub proof fn lemma_cells_round_trip(mat: Seq<Scalar>, num_rows: usize, num_cols: usize)
    ensures
        decode(encode(cells(mat, num_rows, num_cols))) == cells(mat, num_rows, num_cols),
        cells(mat, num_rows, num_cols).len() == num_rows * num_cols,
        forall|i: int|
            0 <= i < num_rows * num_cols && i < mat.len() ==> cells(mat, num_rows, num_cols)[i]
                == mat[i],
        forall|i: int|
            mat.len() <= i < num_rows * num_cols ==> cells(mat, num_rows, num_cols)[i].bits
                == NAN_BITS,
{
    lemma_decode_encode(cells(mat, num_rows, num_cols));
}

/// A payload holds as many bytes as its directive announces: eight for each
/// column of each row of a record, and eight for each cell of a matrix,
/// however many samples were given.
pub proof fn lemma_payload_lengths(
    x1: Seq<Scalar>,
    x2: Seq<Scalar>,
    x3: Seq<Scalar>,
    mat: Seq<Scalar>,
    num_rows: usize,
    num_cols: usize,
)
    ensures
        encode(rows2(x1, x2)).len() == 8 * (2 * shortest(x1.len(), x2.len())),
        encode(rows3(x1, x2, x3)).len() == 8 * (3 * shortest(
            shortest(x1.len(), x2.len()),
            x3.len(),
        )),
        encode(cells(mat, num_rows, num_cols)).len() == 8 * (num_rows * num_cols),
{
    lemma_encode_len(rows2(x1, x2));
    lemma_encode_len(rows3(x1, x2, x3));
    lemma_encode_len(cells(mat, num_rows, num_cols));
}

/// The payload of a record reads back as its rows.
pub proof fn lemma_rows_round_trip(x1: Seq<Scalar>, x2: Seq<Scalar>, x3: Seq<Scalar>)
    ensures
        decode(encode(rows2(x1, x2))) == rows2(x1, x2),
        decode(encode(rows3(x1, x2, x3))) == rows3(x1, x2, x3),
{
    lemma_decode_encode(rows2(x1, x2));
    lemma_decode_encode(rows3(x1, x2, x3));
}

/// Appends a sample to a run whose payload is in `data`.
fn push_sample(data: &mut Vec<u8>, value: Scalar, Ghost(run): Ghost<Seq<Scalar>>)
    requires
        old(data)@ == encode(run),
    ensures
        final(data)@ == encode(run.push(value)),
{
    write_data(data, value);
    assert(run.push(value).drop_last() =~= run);
}

/// The number of rows of a two-column record.
pub fn row_count2(x1: &[Scalar], x2: &[Scalar]) -> (rows: usize)
    ensures
        rows == shortest(x1@.len(), x2@.len()),
{
    if x1.len() <= x2.len() {
        x1.len()
    } else {
        x2.len()
    }
}

/// The number of rows of a three-column record.
pub fn row_count3(x1: &[Scalar], x2: &[Scalar], x3: &[Scalar]) -> (rows: usize)
    ensures
        rows == shortest(shortest(x1@.len(), x2@.len()), x3@.len()),
{
    let rows = row_count2(x1, x2);
    if rows <= x3.len() {
        rows
    } else {
        x3.len()
    }
}

/// The payload of a two-column record.
pub fn encode_rows2(x1: &[Scalar], x2: &[Scalar]) -> (data: Vec<u8>)
    ensures
        data@ == encode(rows2(x1@, x2@)),
{
    let rows = row_count2(x1, x2);
    let mut data: Vec<u8> = Vec::new();
    let ghost all = rows2(x1@, x2@);
    let ghost mut run: Seq<Scalar> = Seq::empty();
    let mut i: usize = 0;
    while i < rows
        invariant
            i <= rows,
            rows == shortest(x1@.len(), x2@.len()),
            all == rows2(x1@, x2@),
            run == all.subrange(0, 2 * i),
            data@ == encode(run),
        decreases rows - i,
    {
        push_sample(&mut data, x1[i], Ghost(run));
        push_sample(&mut data, x2[i], Ghost(run.push(x1@[i as int])));
        proof {
            run = run.push(x1@[i as int]).push(x2@[i as int]);
            assert(run =~= all.subrange(0, 2 * (i + 1)));
        }
        i = i + 1;
    }
    assert(run =~= all);
    data
}

/// The payload of a three-column record.
pub fn encode_rows3(x1: &[Scalar], x2: &[Scalar], x3: &[Scalar]) -> (data: Vec<u8>)
    ensures
        data@ == encode(rows3(x1@, x2@, x3@)),
{
    let rows = row_count3(x1, x2, x3);
    let mut data: Vec<u8> = Vec::new();
    let ghost all = rows3(x1@, x2@, x3@);
    let ghost mut run: Seq<Scalar> = Seq::empty();
    let mut i: usize = 0;
    while i < rows
        invariant
            i <= rows,
            rows == shortest(shortest(x1@.len(), x2@.len()), x3@.len()),
            all == rows3(x1@, x2@, x3@),
            run == all.subrange(0, 3 * i),
            data@ == encode(run),
        decreases rows - i,
    {
        push_sample(&mut data, x1[i], Ghost(run));
        push_sample(&mut data, x2[i], Ghost(run.push(x1@[i as int])));
        push_sample(&mut data, x3[i], Ghost(run.push(x1@[i as int]).push(x2@[i as int])));
        proof {
            run = run.push(x1@[i as int]).push(x2@[i as int]).push(x3@[i as int]);
            assert(run =~= all.subrange(0, 3 * (i + 1)));
        }
        i = i + 1;
    }
    assert(run =~= all);
    data
}

/// The payload of a matrix: one sample for each of its
/// `num_rows * num_cols` cells, taken from `mat` in order, and a NaN for
/// every cell that `mat` does not reach.
pub fn encode_cells(mat: &[Scalar], num_rows: usize, num_cols: usize) -> (data: Vec<u8>)
    ensures
        data@ == encode(cells(mat@, num_rows, num_cols)),
{
    assert(num_rows * num_cols <= 0xffff_ffff_ffff_ffff * 0xffff_ffff_ffff_ffff) by (
        nonlinear_arith
    )
        requires
            num_rows <= 0xffff_ffff_ffff_ffff,
            num_cols <= 0xffff_ffff_ffff_ffff,
    ;
    let total: u128 = (num_rows as u128) * (num_cols as u128);
    let mut data: Vec<u8> = Vec::new();
    let ghost all = cells(mat@, num_rows, num_cols);
    let ghost mut run: Seq<Scalar> = Seq::empty();
    let mut count: u128 = 0;
    while count < total
        invariant
            count <= total,
            total == num_rows * num_cols,
            all == cells(mat@, num_rows, num_cols),
            run == all.subrange(0, count as int),
            data@ == encode(run),
        decreases total - count,
    {
        let value = if count < mat.len() as u128 {
            mat[count as usize]
        } else {
            Scalar::nan()
        };
        push_sample(&mut data, value, Ghost(run));
        proof {
            run = run.push(value);
            assert(run =~= all.subrange(0, count + 1));
        }
        count = count + 1;
    }
    assert(run =~= all);
    data
}

} // verus!
