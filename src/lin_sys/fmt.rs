//! Serializers of linear systems: one equation per row,
//! `c_0 u_0+...+c_{n-2} u_{n-2}=c_{n-1}`, rows separated by `\\`, optionally
//! in the `cases` environment.
use vstd::prelude::*;
use super::LinSys;
use super::unknowns::Unknowns;
use crate::env::LatexEnvironment;
use crate::fmt::labels::{counters_step, Counters, CountersChange, CountersLabel, LabelGenerationError};
use crate::fmt::LatexFormatter;
use crate::latex_modes::LatexModeKind;
use crate::latex_writer::{label_markup, Writer};
use crate::matrix::{matrix_ncols, matrix_rows};
use crate::text::{decimal, push_char, push_decimal};

verus! {

/// The first `k` terms of an equation, each a coefficient, its unknown and `+`.
pub open spec fn equation_terms<U: Unknowns>(row: Seq<i64>, u: U, k: nat) -> Seq<char>
    decreases k,
{
    if k == 0 {
        Seq::empty()
    } else {
        equation_terms(row, u, (k - 1) as nat) + decimal(row[k - 1] as int) + u.spec_ith(k - 1)
            + seq!['+']
    }
}

/// The equation of a row of two cells or more: its coefficients, each
/// followed by its unknown and joined by `+`, then `=` and the last cell.
pub open spec fn equation_latex<U: Unknowns>(row: Seq<i64>, u: U) -> Seq<char> {
    let n = row.len();
    equation_terms(row, u, (n - 2) as nat) + decimal(row[n - 2] as int) + u.spec_ith(n - 2)
        + seq!['='] + decimal(row[n - 1] as int)
}

/// The equations of the rows, separated by `\\`.
pub open spec fn equations_latex<U: Unknowns>(rows: Seq<Seq<i64>>, u: U) -> Seq<char>
    decreases rows.len(),
{
    if rows.len() == 0 {
        Seq::empty()
    } else if rows.len() == 1 {
        equation_latex(rows[0], u)
    } else {
        equations_latex(rows.drop_last(), u) + seq!['\\', '\\'] + equation_latex(rows.last(), u)
    }
}

/// The text of a linear system: its equations, or nothing when its matrix
/// has fewer than two columns (no equation can be formed).
pub open spec fn lin_sys_latex<U: Unknowns>(ls: LinSys<U>) -> Seq<char> {
    if matrix_ncols(ls.matrix) < 2 {
        Seq::empty()
    } else {
        equations_latex(matrix_rows(ls.matrix), ls.unknowns)
    }
}

/// The text of a linear system in the `cases` environment.
pub open spec fn cases_lin_sys_latex<U: Unknowns>(ls: LinSys<U>) -> Seq<char> {
    LatexEnvironment::Cases.spec_opening_tag() + lin_sys_latex(ls)
        + LatexEnvironment::Cases.spec_closing_tag()
}

/// Appends the equation of row `i`.
fn write_equation<U: Unknowns>(dest: &mut String, ls: &LinSys<U>, i: usize)
    requires
        ls.wf(),
        i < matrix_rows(ls.matrix).len(),
        matrix_ncols(ls.matrix) >= 2,
    ensures
        final(dest)@ == old(dest)@ + equation_latex(matrix_rows(ls.matrix)[i as int], ls.unknowns),
{
    let ncols = ls.matrix.ncols();
    let ghost row = matrix_rows(ls.matrix)[i as int];
    let last_unknown: usize = ncols - 2;
    let mut j: usize = 0;
    while j < last_unknown
        invariant
            j <= last_unknown,
            last_unknown == ncols - 2,
            ncols == matrix_ncols(ls.matrix),
            row == matrix_rows(ls.matrix)[i as int],
            row.len() == ncols,
            i < matrix_rows(ls.matrix).len(),
            ls.wf(),
            dest@ == old(dest)@ + equation_terms(row, ls.unknowns, j as nat),
        decreases last_unknown - j,
    {
        let v = ls.matrix.cell(i, j);
        push_decimal(dest, v);
        ls.unknowns.write_ith_unchecked(dest, j);
        push_char(dest, '+');
        assert(dest@ =~= old(dest)@ + equation_terms(row, ls.unknowns, (j + 1) as nat));
        j += 1;
    }
    let v = ls.matrix.cell(i, last_unknown);
    push_decimal(dest, v);
    ls.unknowns.write_ith_unchecked(dest, last_unknown);
    push_char(dest, '=');
    let rhs = ls.matrix.cell(i, last_unknown + 1);
    push_decimal(dest, rhs);
    assert(dest@ =~= old(dest)@ + equation_latex(row, ls.unknowns));
}

/// Appends the equations of `ls`, separated by `\\`; nothing when its matrix
/// has fewer than two columns.
pub fn write_lin_sys<U: Unknowns>(dest: &mut String, ls: &LinSys<U>)
    requires
        ls.wf(),
    ensures
        final(dest)@ == old(dest)@ + lin_sys_latex(*ls),
{
    let nrows = ls.matrix.nrows();
    let ncols = ls.matrix.ncols();
    if ncols < 2 {
        assert(dest@ =~= old(dest)@ + lin_sys_latex(*ls));
        return;
    }
    let ghost rows = matrix_rows(ls.matrix);
    let mut i: usize = 0;
    while i < nrows
        invariant
            i <= nrows,
            nrows == rows.len(),
            rows == matrix_rows(ls.matrix),
            ncols == matrix_ncols(ls.matrix),
            ncols >= 2,
            ls.wf(),
            dest@ == old(dest)@ + equations_latex(rows.take(i as int), ls.unknowns),
        decreases nrows - i,
    {
        if i > 0 {
            push_char(dest, '\\');
            push_char(dest, '\\');
        }
        write_equation(dest, ls, i);
        proof {
            let t = rows.take(i as int + 1);
            assert(t.drop_last() =~= rows.take(i as int));
            assert(t.last() == rows[i as int]);
            if i == 0 {
                assert(rows.take(0) =~= Seq::<Seq<i64>>::empty());
            }
            assert(dest@ =~= old(dest)@ + equations_latex(t, ls.unknowns));
        }
        i += 1;
    }
    assert(rows.take(nrows as int) =~= rows);
}

/// Serializer of the bare equations of a linear system, e.g.
/// `1x_{1}+2x_{2}=3\\4x_{1}+5x_{2}=6`.
pub struct PlainLinSysFormatter;

/// Serializer of linear systems in the `cases` environment, e.g.
/// `\begin{cases}1x_{1}+2x_{2}=3\\4x_{1}+5x_{2}=6\end{cases}`.
pub struct CasesLinSysFormatter;

impl<U: Unknowns> LatexFormatter<LinSys<U>> for PlainLinSysFormatter {
    open spec fn admits(input: &LinSys<U>) -> bool {
        input.wf()
    }

    open spec fn spec_latex(input: &LinSys<U>) -> Seq<char> {
        lin_sys_latex(*input)
    }

    fn write_latex(dest: &mut String, input: &LinSys<U>) {
        write_lin_sys(dest, input);
    }
}

impl<U: Unknowns> LatexFormatter<LinSys<U>> for CasesLinSysFormatter {
    open spec fn admits(input: &LinSys<U>) -> bool {
        input.wf()
    }

    open spec fn spec_latex(input: &LinSys<U>) -> Seq<char> {
        cases_lin_sys_latex(*input)
    }

    fn write_latex(dest: &mut String, input: &LinSys<U>) {
        LatexEnvironment::Cases.write_opening_tag(dest);
        write_lin_sys(dest, input);
        LatexEnvironment::Cases.write_closing_tag(dest);
        assert(dest@ =~= old(dest)@ + cases_lin_sys_latex(*input));
    }
}

impl CasesLinSysFormatter {
    /// Writes `input` in the `cases` environment as a display-math block
    /// (`$$...$$`) labelled with the next equation label of `label_gen`, and
    /// returns that label. Fails when the equation counter is at its largest,
    /// leaving `label_gen` as it was and `dest` inside the unlabelled block.
    pub fn format_as_labelled_display_math_block<U: Unknowns>(
        dest: &mut Writer,
        label_gen: &mut Counters,
        input: &LinSys<U>,
    ) -> (r: Result<CountersLabel, LabelGenerationError>)
        requires
            old(dest).spec_mode() == LatexModeKind::InnerParagraphMode,
            old(label_gen).wf(),
            input.wf(),
        ensures
            final(label_gen).wf(),
            counters_step(CountersChange::IncrementEquation, *old(label_gen), *final(label_gen), r),
            final(dest).spec_flavor() == old(dest).spec_flavor(),
            r is Ok ==> final(dest).spec_text() == old(dest).spec_text() + seq!['$', '$']
                + cases_lin_sys_latex(*input) + label_markup(old(dest).spec_flavor(), r->Ok_0)
                + seq!['$', '$'],
            r is Ok ==> final(dest).spec_mode() == LatexModeKind::InnerParagraphMode,
            r is Err ==> final(dest).spec_text() == old(dest).spec_text() + seq!['$', '$']
                + cases_lin_sys_latex(*input),
            r is Err ==> final(dest).spec_mode() == LatexModeKind::DisplayMathMode,
    {
        let opened = dest.write_two_dollar_signs();
        assert(opened is Ok);
        dest.write_latex::<LinSys<U>, CasesLinSysFormatter>(input);
        let label = label_gen.write_next_label(dest, CountersChange::IncrementEquation)?;
        let closed = dest.write_two_dollar_signs();
        assert(closed is Ok);
        Ok(label)
    }
}

} // verus!
