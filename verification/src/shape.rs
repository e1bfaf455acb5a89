//! The flat buffer of an embedding result and its shape.

use vstd::prelude::*;
use crate::error::EmbedError;

verus! {

/// The vectors of a response, each as a sequence.
pub open spec fn rows_of<T>(rows: Seq<Vec<T>>) -> Seq<Seq<T>> {
    Seq::new(rows.len(), |i: int| rows[i]@)
}

/// Whether every row has length `d`.
pub open spec fn is_uniform<T>(rows: Seq<Seq<T>>, d: nat) -> bool {
    forall|i: int| 0 <= i < rows.len() ==> (#[trigger] rows[i]).len() == d
}

/// A flat buffer cut into `n` consecutive rows of length `d`.
pub open spec fn reshape<T>(flat: Seq<T>, n: nat, d: nat) -> Seq<Seq<T>> {
    Seq::new(n, |i: int| flat.subrange(i * d, i * d + d))
}

/// The number of rows and the length of the first.
pub open spec fn shape_of<T>(rows: Seq<Seq<T>>) -> (nat, nat) {
    (rows.len(), rows[0].len())
}

/// Why the vectors that came back for `expected` input items cannot be laid
/// out as a result, if they cannot.
pub open spec fn shape_error<T>(expected: nat, rows: Seq<Seq<T>>) -> Option<EmbedError> {
    if rows.len() == 0 {
        Some(EmbedError::EmptyResponse)
    } else if rows.len() != expected {
        Some(EmbedError::CountMismatch)
    } else if !is_uniform(rows, rows[0].len()) {
        Some(EmbedError::RaggedResponse)
    } else {
        None
    }
}

/// The vectors of one request laid out consecutively in one buffer, with the
/// number of vectors and their common length.
pub struct EmbedResult<T> {
    flat: Vec<T>,
    count: usize,
    dimension: usize,
}

impl<T> EmbedResult<T> {
    #[verifier::type_invariant]
    spec fn well_shaped(self) -> bool {
        self.flat@.len() == self.count * self.dimension
    }

    /// The contents of the flat buffer.
    pub closed spec fn buffer(self) -> Seq<T> {
        self.flat@
    }

    /// The number of vectors.
    pub closed spec fn spec_count(self) -> nat {
        self.count as nat
    }

    /// The length of each vector.
    pub closed spec fn spec_dimension(self) -> nat {
        self.dimension as nat
    }

    /// The vectors, in the order of the input items.
    pub open spec fn rows(self) -> Seq<Seq<T>> {
        reshape(self.buffer(), self.spec_count(), self.spec_dimension())
    }

    /// The flat buffer: `count` vectors of `dimension` values each.
    pub fn flat(&self) -> (flat: &Vec<T>)
        ensures
            flat@ == self.buffer(),
            flat@.len() == self.spec_count() * self.spec_dimension(),
    {
        proof {
            use_type_invariant(self);
        }
        &self.flat
    }

    /// The number of vectors.
    pub fn count(&self) -> (count: usize)
        ensures
            count == self.spec_count(),
    {
        self.count
    }

    /// The length of each vector.
    pub fn dimension(&self) -> (dimension: usize)
        ensures
            dimension == self.spec_dimension(),
    {
        self.dimension
    }

    /// The buffer, the number of vectors and the length of each.
    pub fn into_parts(self) -> (parts: (Vec<T>, usize, usize))
        ensures
            parts.0@ == self.buffer(),
            parts.1 == self.spec_count(),
            parts.2 == self.spec_dimension(),
            parts.0@.len() == parts.1 * parts.2,
    {
        proof {
            use_type_invariant(&self);
        }
        (self.flat, self.count, self.dimension)
    }

    /// The vector of the input item at `index`, if there is one.
    pub fn row(&self, index: usize) -> (row: Option<&[T]>)
        ensures
            match row {
                Some(values) => index < self.spec_count() && values@ == self.rows()[index as int],
                None => index >= self.spec_count(),
            },
    {
        proof {
            use_type_invariant(self);
        }
        if index < self.count {
            let d: usize = self.dimension;
            assert(0 <= index * d && index * d + d <= self.count * d) by (nonlinear_arith)
                requires
                    0 <= index < self.count,
                    0 <= d,
            ;
            let total: usize = self.flat.len();
            assert(self.count * d == total);
            let start: usize = index * d;
            Some(vstd::slice::slice_subrange(self.flat.as_slice(), start, start + d))
        } else {
            None
        }
    }
}

/// Whether `result` is what laying out `rows` for `expected` input items
/// gives: the failure that [`shape_error`] names, if it names one; otherwise
/// a buffer of `rows.len()` times the rows' length values that, cut back
/// into rows, gives `rows` again.
pub open spec fn is_layout_of<T>(
    result: Result<EmbedResult<T>, EmbedError>,
    expected: nat,
    rows: Seq<Seq<T>>,
) -> bool {
    match result {
        Ok(r) => {
            &&& shape_error(expected, rows) is None
            &&& (r.spec_count(), r.spec_dimension()) == shape_of(rows)
            &&& r.buffer().len() == r.spec_count() * r.spec_dimension()
            &&& r.rows() == rows
        },
        Err(e) => shape_error(expected, rows) == Some(e),
    }
}

/// Lays the vectors that came back for `expected` input items out in one
/// buffer, row after row.
pub fn flatten<T: Copy>(expected: usize, rows: &Vec<Vec<T>>) -> (result: Result<
    EmbedResult<T>,
    EmbedError,
>)
    ensures
        is_layout_of(result, expected as nat, rows_of(rows@)),
{
    let n: usize = rows.len();
    if n == 0 {
        return Err(EmbedError::EmptyResponse);
    }
    if n != expected {
        return Err(EmbedError::CountMismatch);
    }
    let d: usize = rows[0].len();
    let mut i: usize = 1;
    while i < n
        invariant
            n == rows@.len(),
            n == expected,
            1 <= i <= n,
            d == rows@[0]@.len(),
            forall|k: int| 0 <= k < i ==> (#[trigger] rows@[k])@.len() == d,
        decreases n - i,
    {
        if rows[i].len() != d {
            assert(rows_of(rows@)[0].len() == d);
            assert(rows_of(rows@)[i as int].len() != d);
            return Err(EmbedError::RaggedResponse);
        }
        i += 1;
    }
    assert(is_uniform(rows_of(rows@), d as nat));
    let mut flat: Vec<T> = Vec::new();
    let mut i: usize = 0;
    while i < n
        invariant
            n == rows@.len(),
            i <= n,
            forall|k: int| 0 <= k < n ==> (#[trigger] rows@[k])@.len() == d,
            flat@.len() == i * d,
            forall|a: int, b: int|
                0 <= a < i && 0 <= b < d ==> flat@[a * d + b] == #[trigger] rows@[a]@[b],
        decreases n - i,
    {
        let row = &rows[i];
        let mut j: usize = 0;
        while j < d
            invariant
                n == rows@.len(),
                i < n,
                row@ == rows@[i as int]@,
                row@.len() == d,
                j <= d,
                flat@.len() == i * d + j,
                forall|a: int, b: int|
                    0 <= a < i && 0 <= b < d ==> flat@[a * d + b] == #[trigger] rows@[a]@[b],
                forall|b: int| 0 <= b < j ==> flat@[i * d + b] == #[trigger] row@[b],
            decreases d - j,
        {
            let ghost before = flat@;
            flat.push(row[j]);
            proof {
                assert forall|a: int, b: int| 0 <= a < i && 0 <= b < d implies flat@[a * d + b]
                    == #[trigger] rows@[a]@[b] by {
                    assert(a * d + b < i * d) by (nonlinear_arith)
                        requires
                            0 <= a < i,
                            0 <= b < d,
                    ;
                    assert(flat@[a * d + b] == before[a * d + b]);
                }
            }
            j += 1;
        }
        proof {
            assert(i * d + d == (i + 1) * d) by (nonlinear_arith);
            assert forall|a: int, b: int| 0 <= a < i + 1 && 0 <= b < d implies flat@[a * d + b]
                == #[trigger] rows@[a]@[b] by {
                if a == i {
                    assert(flat@[i * d + b] == row@[b]);
                }
            }
        }
        i += 1;
    }
    let result = EmbedResult { flat, count: n, dimension: d };
    proof {
        assert forall|a: int, b: int| 0 <= a < n && 0 <= b < d implies flat@[a * d + b]
            == #[trigger] rows_of(rows@)[a][b] by {
            assert(flat@[a * d + b] == rows@[a]@[b]);
        }
        lemma_reshape_recovers_rows(flat@, rows_of(rows@), d as nat);
    }
    Ok(result)
}

/// The shape of a result does not depend on what came before: whenever two
/// answers to one request are each laid out with success, and the vectors of
/// both have the model's length `d`, both results hold as many vectors as the
/// request has items, of length `d`.
pub proof fn lemma_same_request_same_shape<T>(
    expected: nat,
    d: nat,
    first: Seq<Seq<T>>,
    second: Seq<Seq<T>>,
)
    requires
        shape_error(expected, first) is None,
        shape_error(expected, second) is None,
        is_uniform(first, d),
        is_uniform(second, d),
    ensures
        shape_of(first) == (expected, d),
        shape_of(second) == (expected, d),
{
}

/// Cutting the buffer of `n` rows of length `d`, laid out row after row, back
/// into rows gives each row again, in its place.
pub proof fn lemma_reshape_recovers_rows<T>(flat: Seq<T>, rows: Seq<Seq<T>>, d: nat)
    requires
        is_uniform(rows, d),
        flat.len() == rows.len() * d,
        forall|i: int, j: int|
            0 <= i < rows.len() && 0 <= j < d ==> flat[i * d + j] == #[trigger] rows[i][j],
    ensures
        reshape(flat, rows.len(), d) == rows,
{
    let got = reshape(flat, rows.len(), d);
    assert forall|i: int| 0 <= i < rows.len() implies got[i] =~= rows[i] by {
        assert(0 <= i * d && i * d + d <= rows.len() * d) by (nonlinear_arith)
            requires
                0 <= i < rows.len(),
                0 <= d,
        ;
        assert forall|j: int| 0 <= j < d implies got[i][j] == rows[i][j] by {
            assert(flat[i * d + j] == rows[i][j]);
        }
    }
    assert(got =~= rows);
}

} // verus!
