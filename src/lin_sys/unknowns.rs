//! Vectors of unknowns: how the unknown of each column of a linear system is
//! written.
use vstd::prelude::*;
use super::{Numbering, OutOfBoundsError};
use crate::text::{decimal, push_char, push_nat_digits};

verus! {

/// `\textbf{c}`: the name of a vector of unknowns called `c`.
pub open spec fn vector_name(c: char) -> Seq<char> {
    "\\textbf{"@ + seq![c] + "}"@
}

/// A vector of unknowns.
pub trait Unknowns {
    /// The number of unknowns.
    spec fn spec_len(&self) -> nat;

    /// The letter that names the vector.
    spec fn spec_letter(&self) -> char;

    /// How the unknown at zero-based index `i` is written.
    spec fn spec_ith(&self, i: int) -> Seq<char>;

    /// Whether there are no unknowns.
    fn is_empty(&self) -> (r: bool)
        ensures
            r == (self.spec_len() == 0),
    ;

    /// The number of unknowns.
    fn len(&self) -> (r: Result<usize, OutOfBoundsError>)
        ensures
            r is Ok,
            r->Ok_0 == self.spec_len(),
    ;

    /// `Ok` exactly when `zbi` is the index of an unknown.
    fn validate_idx(&self, zbi: usize) -> (r: Result<(), OutOfBoundsError>)
        ensures
            r is Ok <==> zbi < self.spec_len(),
    ;

    /// Appends the name of the vector, `\textbf{c}`.
    fn write(&self, w: &mut String)
        ensures
            final(w)@ == old(w)@ + vector_name(self.spec_letter()),
    ;

    /// Appends the unknown at zero-based index `zbi`.
    fn write_ith_unchecked(&self, w: &mut String, zbi: usize)
        requires
            zbi < self.spec_len(),
        ensures
            final(w)@ == old(w)@ + self.spec_ith(zbi as int),
    ;

    /// Appends the unknown at zero-based index `zbi`, or fails with
    /// [`OutOfBoundsError`], appending nothing, when there is no such unknown.
    fn write_ith(&self, w: &mut String, zbi: usize) -> (r: Result<(), OutOfBoundsError>)
        ensures
            r is Ok <==> zbi < self.spec_len(),
            r is Ok ==> final(w)@ == old(w)@ + self.spec_ith(zbi as int),
            r is Err ==> final(w)@ == old(w)@,
    {
        self.validate_idx(zbi)?;
        self.write_ith_unchecked(w, zbi);
        Ok(())
    }
}

/// Appends `\textbf{c}`.
fn write_vector_name(w: &mut String, c: char)
    ensures
        final(w)@ == old(w)@ + vector_name(c),
{
    w.append("\\textbf{");
    push_char(w, c);
    w.append("}");
    assert(w@ =~= old(w)@ + vector_name(c));
}

/// A vector of `len` unknowns named after one letter `c`, written `c_{n}`
/// where `n` is the index of the unknown, counted from zero or from one.
pub struct SingleLetterBoldfaceVecOfUnknowns {
    /// The name of the vector, e.g. `x`.
    pub c: char,
    /// The number of unknowns.
    pub len: usize,
    /// How subscripts are numbered.
    pub numbering: Numbering,
}

impl SingleLetterBoldfaceVecOfUnknowns {
    /// The vector of `len` unknowns named after `c`, numbered by `numbering`.
    pub open spec fn new_spec(c: char, len: usize, numbering: Numbering) -> Self {
        SingleLetterBoldfaceVecOfUnknowns { c, len, numbering }
    }

    /// The vector of `len` unknowns named after `c`, numbered by `numbering`.
    pub fn new(c: char, len: usize, numbering: Numbering) -> (r: Self)
        ensures
            r == Self::new_spec(c, len, numbering),
    {
        SingleLetterBoldfaceVecOfUnknowns { c, len, numbering }
    }
}

impl Unknowns for SingleLetterBoldfaceVecOfUnknowns {
    open spec fn spec_len(&self) -> nat {
        self.len as nat
    }

    open spec fn spec_letter(&self) -> char {
        self.c
    }

    open spec fn spec_ith(&self, i: int) -> Seq<char> {
        seq![self.c] + "_{"@ + decimal(self.numbering.spec_number(i)) + "}"@
    }

    fn is_empty(&self) -> (r: bool) {
        self.len == 0
    }

    fn len(&self) -> (r: Result<usize, OutOfBoundsError>) {
        Ok(self.len)
    }

    fn validate_idx(&self, zbi: usize) -> (r: Result<(), OutOfBoundsError>) {
        if zbi >= self.len {
            Err(OutOfBoundsError)
        } else {
            Ok(())
        }
    }

    fn write(&self, w: &mut String) {
        write_vector_name(w, self.c);
    }

    fn write_ith_unchecked(&self, w: &mut String, zbi: usize) {
        push_char(w, self.c);
        w.append("_{");
        let n: usize = match self.numbering {
            Numbering::ZeroBased => zbi,
            Numbering::OneBased => zbi + 1,
        };
        push_nat_digits(w, n as u64);
        w.append("}");
        assert(w@ =~= old(w)@ + self.spec_ith(zbi as int));
    }
}

/// Law: numbered from one, the unknown at index `i` of a vector is written as
/// the unknown at index `i + 1` of the same vector numbered from zero (for a
/// vector `x`: `x_{1}`, `x_{2}`, `x_{3}` against `x_{0}`, `x_{1}`, `x_{2}`).
pub proof fn lemma_one_based_numbering_shifts(c: char, len: usize, i: int)
    ensures
        SingleLetterBoldfaceVecOfUnknowns::new_spec(c, len, Numbering::OneBased).spec_ith(i)
            == SingleLetterBoldfaceVecOfUnknowns::new_spec(c, len, Numbering::ZeroBased).spec_ith(
            i + 1,
        ),
{
}

/// A vector named after the letter `c` whose unknowns are distinct letters,
/// each written as itself.
pub struct SingleLetterBoldfaceVecOfDistinctSingleLetterUnknowns<const N: usize> {
    /// The name of the vector, e.g. `x`.
    pub c: char,
    /// The unknowns, in order.
    pub unknowns: [char; N],
}

impl<const N: usize> SingleLetterBoldfaceVecOfDistinctSingleLetterUnknowns<N> {
    /// No letter stands for two unknowns.
    pub open spec fn wf(&self) -> bool {
        forall|i: int, j: int|
            0 <= i < j < N ==> self.unknowns@[i] != self.unknowns@[j]
    }

    /// The vector named after `c` whose unknowns are `unknowns`, which must
    /// be distinct.
    pub fn new(c: char, unknowns: [char; N]) -> (r: Self)
        requires
            forall|i: int, j: int| 0 <= i < j < N ==> unknowns@[i] != unknowns@[j],
        ensures
            r.c == c,
            r.unknowns == unknowns,
            r.wf(),
    {
        SingleLetterBoldfaceVecOfDistinctSingleLetterUnknowns { c, unknowns }
    }
}

impl<const N: usize> Unknowns for SingleLetterBoldfaceVecOfDistinctSingleLetterUnknowns<N> {
    open spec fn spec_len(&self) -> nat {
        N as nat
    }

    open spec fn spec_letter(&self) -> char {
        self.c
    }

    open spec fn spec_ith(&self, i: int) -> Seq<char> {
        seq![self.unknowns@[i]]
    }

    fn is_empty(&self) -> (r: bool) {
        N == 0
    }

    fn len(&self) -> (r: Result<usize, OutOfBoundsError>) {
        Ok(N)
    }

    fn validate_idx(&self, zbi: usize) -> (r: Result<(), OutOfBoundsError>) {
        if zbi < N {
            Ok(())
        } else {
            Err(OutOfBoundsError)
        }
    }

    fn write(&self, w: &mut String) {
        write_vector_name(w, self.c);
    }

    fn write_ith_unchecked(&self, w: &mut String, zbi: usize) {
        push_char(w, self.unknowns[zbi]);
        assert(w@ =~= old(w)@ + self.spec_ith(zbi as int));
    }
}

} // verus!
