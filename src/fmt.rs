//! Serializers of matrices: the bare contents (`1&2\\3&4`), and the contents
//! wrapped in an environment (`\begin{pmatrix}1&2\\3&4\end{pmatrix}`),
//! optionally between math delimiters (`$...$`, `$$...$$`).
use vstd::prelude::*;
use crate::env::LatexEnvironment;
use crate::latex_modes::{
    delimiting_required, spec_delimiting_required, InvalidModeTransitionError, LatexModeKind,
    MathLatexModeKind,
};
use crate::matrix::{is_rectangular, matrix_ncols, matrix_rows, IntMatrix};
use crate::text::{count_char, decimal, lemma_count_concat, lemma_decimal_count, push_char, push_decimal};

pub mod labels;

verus! {

/// The cells of one row in decimal, separated by `&`.
pub open spec fn row_latex(row: Seq<i64>) -> Seq<char>
    decreases row.len(),
{
    if row.len() == 0 {
        Seq::empty()
    } else if row.len() == 1 {
        decimal(row[0] as int)
    } else {
        row_latex(row.drop_last()) + seq!['&'] + decimal(row.last() as int)
    }
}

/// The rows, each as [`row_latex`], separated by `\\`.
pub open spec fn rows_latex(rows: Seq<Seq<i64>>) -> Seq<char>
    decreases rows.len(),
{
    if rows.len() == 0 {
        Seq::empty()
    } else if rows.len() == 1 {
        row_latex(rows[0])
    } else {
        rows_latex(rows.drop_last()) + seq!['\\', '\\'] + row_latex(rows.last())
    }
}

/// The contents of a matrix: empty when it has no rows or no columns, and
/// otherwise its rows as [`rows_latex`].
pub open spec fn matrix_contents_latex(m: IntMatrix) -> Seq<char> {
    if matrix_ncols(m) == 0 {
        Seq::empty()
    } else {
        rows_latex(matrix_rows(m))
    }
}

/// The contents of a matrix between the tags of an environment.
pub open spec fn environment_matrix_latex(m: IntMatrix, env: LatexEnvironment) -> Seq<char> {
    env.spec_opening_tag() + matrix_contents_latex(m) + env.spec_closing_tag()
}

/// `text`, between the delimiters of a math mode if one is given.
pub open spec fn delimited(text: Seq<char>, delimiter: Option<MathLatexModeKind>) -> Seq<char> {
    match delimiter {
        None => text,
        Some(k) => k.spec_delimiter() + text + k.spec_delimiter(),
    }
}

/// What a serializer writes when the text around starts in mode `initial`
/// and the serialized block must be in math mode `output`: the block, between
/// delimiters where [`spec_delimiting_required`] asks for them, and nothing
/// when the modes are incompatible.
pub open spec fn in_mode(
    text: Seq<char>,
    initial: LatexModeKind,
    output: MathLatexModeKind,
) -> Option<Seq<char>> {
    match spec_delimiting_required(initial, output) {
        None => None,
        Some(false) => Some(text),
        Some(true) => Some(delimited(text, Some(output))),
    }
}

/// `c` occurs once in the one-character text `c`.
proof fn lemma_count_single(c: char, d: char)
    ensures
        count_char(seq![c], d) == if c == d {
            1nat
        } else {
            0nat
        },
{
    assert(seq![c].drop_last() =~= Seq::<char>::empty());
    assert(count_char(Seq::<char>::empty(), d) == 0);
}

/// Law: in the text of a row of one cell or more, `&` occurs once fewer than
/// there are cells (once between each two cells, never in a cell), and no
/// backslash occurs.
pub proof fn lemma_row_separators(row: Seq<i64>)
    ensures
        row.len() >= 1 ==> count_char(row_latex(row), '&') == row.len() - 1,
        count_char(row_latex(row), '\\') == 0,
    decreases row.len(),
{
    if row.len() == 0 {
        assert(count_char(Seq::<char>::empty(), '\\') == 0);
    } else if row.len() == 1 {
        lemma_decimal_count(row[0] as int, '&');
        lemma_decimal_count(row[0] as int, '\\');
    } else {
        let init = row_latex(row.drop_last());
        let cell = decimal(row.last() as int);
        lemma_row_separators(row.drop_last());
        lemma_decimal_count(row.last() as int, '&');
        lemma_decimal_count(row.last() as int, '\\');
        lemma_count_single('&', '&');
        lemma_count_single('&', '\\');
        lemma_count_concat(init, seq!['&'], '&');
        lemma_count_concat(init + seq!['&'], cell, '&');
        lemma_count_concat(init, seq!['&'], '\\');
        lemma_count_concat(init + seq!['&'], cell, '\\');
    }
}

/// Counts of `&` and of backslashes in the text of rows of `ncols >= 1`
/// cells each.
proof fn lemma_rows_separators(rows: Seq<Seq<i64>>, ncols: nat)
    requires
        ncols >= 1,
        forall|i: int| 0 <= i < rows.len() ==> #[trigger] rows[i].len() == ncols,
    ensures
        count_char(rows_latex(rows), '&') == rows.len() * (ncols - 1),
        rows.len() >= 1 ==> count_char(rows_latex(rows), '\\') == 2 * (rows.len() - 1),
    decreases rows.len(),
{
    if rows.len() == 0 {
        assert(count_char(Seq::<char>::empty(), '&') == 0);
    } else if rows.len() == 1 {
        lemma_row_separators(rows[0]);
    } else {
        let init = rows_latex(rows.drop_last());
        let sep = seq!['\\', '\\'];
        let last = row_latex(rows.last());
        lemma_rows_separators(rows.drop_last(), ncols);
        lemma_row_separators(rows.last());
        assert(sep =~= seq!['\\'] + seq!['\\']);
        lemma_count_single('\\', '&');
        lemma_count_single('\\', '\\');
        lemma_count_concat(seq!['\\'], seq!['\\'], '&');
        lemma_count_concat(seq!['\\'], seq!['\\'], '\\');
        lemma_count_concat(init, sep, '&');
        lemma_count_concat(init + sep, last, '&');
        lemma_count_concat(init, sep, '\\');
        lemma_count_concat(init + sep, last, '\\');
        let k = rows.len();
        assert((k - 1) * (ncols - 1) + (ncols - 1) == k * (ncols - 1)) by (nonlinear_arith);
    }
}

/// Law: a matrix with no rows or no columns has empty contents.
pub proof fn lemma_empty_matrix_contents(m: IntMatrix)
    requires
        matrix_rows(m).len() == 0 || matrix_ncols(m) == 0,
    ensures
        matrix_contents_latex(m) == Seq::<char>::empty(),
{
}

/// Law: in the contents of a matrix with columns, `&` separates the cells of
/// each row: it occurs `ncols - 1` times in each row's text, and
/// `nrows * (ncols - 1)` times in all.
pub proof fn lemma_column_separators(m: IntMatrix)
    requires
        is_rectangular(m),
        matrix_ncols(m) >= 1,
    ensures
        forall|i: int|
            0 <= i < matrix_rows(m).len() ==> count_char(#[trigger] row_latex(matrix_rows(m)[i]), '&')
                == matrix_ncols(m) - 1,
        count_char(matrix_contents_latex(m), '&') == matrix_rows(m).len() * (matrix_ncols(m) - 1),
{
    assert forall|i: int| 0 <= i < matrix_rows(m).len() implies count_char(
        #[trigger] row_latex(matrix_rows(m)[i]),
        '&',
    ) == matrix_ncols(m) - 1 by {
        lemma_row_separators(matrix_rows(m)[i]);
    }
    lemma_rows_separators(matrix_rows(m), matrix_ncols(m));
}

/// Law: in the contents of a matrix with rows and columns, the rows are
/// separated by `nrows - 1` separators `\\`: as no cell holds a backslash,
/// the contents hold `2 * (nrows - 1)` of them.
pub proof fn lemma_row_separators_in_contents(m: IntMatrix)
    requires
        is_rectangular(m),
        matrix_rows(m).len() >= 1,
        matrix_ncols(m) >= 1,
    ensures
        count_char(matrix_contents_latex(m), '\\') == 2 * (matrix_rows(m).len() - 1),
{
    lemma_rows_separators(matrix_rows(m), matrix_ncols(m));
}

/// Law: wrapping the contents of a matrix in an environment, then taking off
/// that environment's opening and closing tags, gives back the contents.
pub proof fn lemma_environment_round_trip(m: IntMatrix, env: LatexEnvironment)
    ensures
        ({
            let wrapped = environment_matrix_latex(m, env);
            let open = env.spec_opening_tag();
            let close = env.spec_closing_tag();
            &&& wrapped.len() == open.len() + matrix_contents_latex(m).len() + close.len()
            &&& wrapped.subrange(0, open.len() as int) == open
            &&& wrapped.subrange(open.len() as int, wrapped.len() - close.len())
                == matrix_contents_latex(m)
            &&& wrapped.subrange(wrapped.len() - close.len(), wrapped.len() as int) == close
        }),
{
    let wrapped = environment_matrix_latex(m, env);
    let open = env.spec_opening_tag();
    let close = env.spec_closing_tag();
    assert(wrapped.subrange(0, open.len() as int) =~= open);
    assert(wrapped.subrange(open.len() as int, wrapped.len() - close.len()) =~= matrix_contents_latex(m));
    assert(wrapped.subrange(wrapped.len() - close.len(), wrapped.len() as int) =~= close);
}

/// Law: the text of a matrix depends on its cells and on the configuration
/// alone, so serializing the same matrix twice with the same environment and
/// delimiter gives the same text.
pub proof fn lemma_serialization_deterministic(
    m1: IntMatrix,
    m2: IntMatrix,
    env: LatexEnvironment,
    delimiter: Option<MathLatexModeKind>,
)
    requires
        matrix_rows(m1) == matrix_rows(m2),
        matrix_ncols(m1) == matrix_ncols(m2),
    ensures
        delimited(environment_matrix_latex(m1, env), delimiter) == delimited(
            environment_matrix_latex(m2, env),
            delimiter,
        ),
        matrix_contents_latex(m1) == matrix_contents_latex(m2),
{
}

/// Appends the delimiter of a math mode: `$` or `$$`.
pub fn write_math_delimiter(dest: &mut String, k: MathLatexModeKind)
    ensures
        final(dest)@ == old(dest)@ + k.spec_delimiter(),
{
    push_char(dest, '$');
    if let MathLatexModeKind::DisplayMathMode = k {
        push_char(dest, '$');
    }
    assert(dest@ =~= old(dest)@ + k.spec_delimiter());
}

/// Appends row `i` of `m`: its cells in decimal, separated by `&`.
fn write_row(dest: &mut String, m: &IntMatrix, i: usize)
    requires
        i < matrix_rows(*m).len(),
    ensures
        final(dest)@ == old(dest)@ + row_latex(matrix_rows(*m)[i as int]),
{
    let ncols = m.ncols();
    let ghost row = matrix_rows(*m)[i as int];
    let mut j: usize = 0;
    while j < ncols
        invariant
            j <= ncols,
            ncols == matrix_ncols(*m),
            row.len() == ncols,
            row == matrix_rows(*m)[i as int],
            i < matrix_rows(*m).len(),
            dest@ == old(dest)@ + row_latex(row.take(j as int)),
        decreases ncols - j,
    {
        if j > 0 {
            push_char(dest, '&');
        }
        let v = m.cell(i, j);
        push_decimal(dest, v);
        proof {
            let t = row.take(j as int + 1);
            assert(t.drop_last() =~= row.take(j as int));
            assert(t.last() == v);
            if j == 0 {
                assert(row.take(0) =~= Seq::<i64>::empty());
            }
            assert(dest@ =~= old(dest)@ + row_latex(t));
        }
        j += 1;
    }
    assert(row.take(ncols as int) =~= row);
}

/// Appends the contents of `m`: its rows as [`row_latex`], separated by `\\`;
/// nothing when `m` has no rows or no columns.
pub fn write_matrix_contents(dest: &mut String, m: &IntMatrix)
    ensures
        final(dest)@ == old(dest)@ + matrix_contents_latex(*m),
{
    let nrows = m.nrows();
    let ncols = m.ncols();
    if ncols == 0 {
        assert(dest@ =~= old(dest)@ + matrix_contents_latex(*m));
        return;
    }
    let ghost rows = matrix_rows(*m);
    let mut i: usize = 0;
    while i < nrows
        invariant
            i <= nrows,
            nrows == rows.len(),
            rows == matrix_rows(*m),
            dest@ == old(dest)@ + rows_latex(rows.take(i as int)),
        decreases nrows - i,
    {
        if i > 0 {
            push_char(dest, '\\');
            push_char(dest, '\\');
        }
        write_row(dest, m, i);
        proof {
            let t = rows.take(i as int + 1);
            assert(t.drop_last() =~= rows.take(i as int));
            assert(t.last() == rows[i as int]);
            if i == 0 {
                assert(rows.take(0) =~= Seq::<Seq<i64>>::empty());
            }
            assert(dest@ =~= old(dest)@ + rows_latex(t));
        }
        i += 1;
    }
    assert(rows.take(nrows as int) =~= rows);
}

/// Appends the contents of `m` between the tags of `env`.
pub fn write_environment_matrix(dest: &mut String, m: &IntMatrix, env: LatexEnvironment)
    ensures
        final(dest)@ == old(dest)@ + environment_matrix_latex(*m, env),
{
    env.write_opening_tag(dest);
    write_matrix_contents(dest, m);
    env.write_closing_tag(dest);
    assert(dest@ =~= old(dest)@ + environment_matrix_latex(*m, env));
}

/// Appends the contents of `m` between the tags of `env`, and those between
/// the delimiters of `delimiter` when one is given.
pub fn write_matrix(
    dest: &mut String,
    m: &IntMatrix,
    env: LatexEnvironment,
    delimiter: Option<MathLatexModeKind>,
)
    ensures
        final(dest)@ == old(dest)@ + delimited(environment_matrix_latex(*m, env), delimiter),
{
    if let Some(k) = delimiter {
        write_math_delimiter(dest, k);
    }
    write_environment_matrix(dest, m, env);
    if let Some(k) = delimiter {
        write_math_delimiter(dest, k);
    }
    assert(dest@ =~= old(dest)@ + delimited(environment_matrix_latex(*m, env), delimiter));
}

/// A serializer of values of type `I` into LaTeX.
pub trait LatexFormatter<I> {
    /// The inputs that the serializer accepts.
    spec fn admits(input: &I) -> bool;

    /// The LaTeX text of an input.
    spec fn spec_latex(input: &I) -> Seq<char>;

    /// Appends the LaTeX text of `input`.
    fn write_latex(dest: &mut String, input: &I)
        requires
            Self::admits(input),
        ensures
            final(dest)@ == old(dest)@ + Self::spec_latex(input),
    ;

    /// Appends the LaTeX text of `input`, between the delimiters of
    /// `delimiter` when one is given.
    fn write_delimited_latex(dest: &mut String, input: &I, delimiter: Option<MathLatexModeKind>)
        requires
            Self::admits(input),
        ensures
            final(dest)@ == old(dest)@ + delimited(Self::spec_latex(input), delimiter),
    {
        if let Some(k) = delimiter {
            write_math_delimiter(dest, k);
        }
        Self::write_latex(dest, input);
        if let Some(k) = delimiter {
            write_math_delimiter(dest, k);
        }
        assert(dest@ =~= old(dest)@ + delimited(Self::spec_latex(input), delimiter));
    }

    /// Appends the LaTeX text of `input` as a block in math mode `output`,
    /// written where the text around is in mode `initial`: between the
    /// delimiters of `output` unless `initial` is already `output`. Fails,
    /// appending nothing, when `initial` is the other math mode.
    fn write_latex_in_mode(
        dest: &mut String,
        input: &I,
        initial: LatexModeKind,
        output: MathLatexModeKind,
    ) -> (r: Result<(), InvalidModeTransitionError>)
        requires
            Self::admits(input),
        ensures
            r is Ok <==> in_mode(Self::spec_latex(input), initial, output) is Some,
            r is Ok ==> final(dest)@ == old(dest)@ + in_mode(
                Self::spec_latex(input),
                initial,
                output,
            )->Some_0,
            r is Err ==> final(dest)@ == old(dest)@,
    {
        let required = delimiting_required(initial, output)?;
        if required {
            Self::write_delimited_latex(dest, input, Some(output));
        } else {
            Self::write_latex(dest, input);
        }
        Ok(())
    }
}

/// Serializer of the bare contents of a matrix, e.g. `1&2&3\\4&5&6`.
pub struct PlainMatrixContentsFormatter;

impl LatexFormatter<IntMatrix> for PlainMatrixContentsFormatter {
    open spec fn admits(input: &IntMatrix) -> bool {
        true
    }

    open spec fn spec_latex(input: &IntMatrix) -> Seq<char> {
        matrix_contents_latex(*input)
    }

    fn write_latex(dest: &mut String, input: &IntMatrix) {
        write_matrix_contents(dest, input);
    }
}

/// Serializer of matrices in the `matrix` environment (no delimiters), e.g.
/// `\begin{matrix}1&2\\3&4\end{matrix}`.
pub struct PlainMatrixFormatter;

impl LatexFormatter<IntMatrix> for PlainMatrixFormatter {
    open spec fn admits(input: &IntMatrix) -> bool {
        true
    }

    open spec fn spec_latex(input: &IntMatrix) -> Seq<char> {
        environment_matrix_latex(*input, LatexEnvironment::Plain)
    }

    fn write_latex(dest: &mut String, input: &IntMatrix) {
        write_environment_matrix(dest, input, LatexEnvironment::Plain);
    }
}

/// Serializer of matrices in the `pmatrix` environment (parentheses), e.g.
/// `\begin{pmatrix}1&2\\3&4\end{pmatrix}`.
pub struct ParenthesizedMatrixFormatter;

impl LatexFormatter<IntMatrix> for ParenthesizedMatrixFormatter {
    open spec fn admits(input: &IntMatrix) -> bool {
        true
    }

    open spec fn spec_latex(input: &IntMatrix) -> Seq<char> {
        environment_matrix_latex(*input, LatexEnvironment::Parenthesized)
    }

    fn write_latex(dest: &mut String, input: &IntMatrix) {
        write_environment_matrix(dest, input, LatexEnvironment::Parenthesized);
    }
}

/// Serializer of matrices in the `bmatrix` environment (brackets), e.g.
/// `\begin{bmatrix}1&2\\3&4\end{bmatrix}`.
pub struct BracketedMatrixFormatter;

impl LatexFormatter<IntMatrix> for BracketedMatrixFormatter {
    open spec fn admits(input: &IntMatrix) -> bool {
        true
    }

    open spec fn spec_latex(input: &IntMatrix) -> Seq<char> {
        environment_matrix_latex(*input, LatexEnvironment::Bracketed)
    }

    fn write_latex(dest: &mut String, input: &IntMatrix) {
        write_environment_matrix(dest, input, LatexEnvironment::Bracketed);
    }
}

/// Serializer of matrices in the `Bmatrix` environment (braces), e.g.
/// `\begin{Bmatrix}1&2\\3&4\end{Bmatrix}`.
pub struct BracedMatrixFormatter;

impl LatexFormatter<IntMatrix> for BracedMatrixFormatter {
    open spec fn admits(input: &IntMatrix) -> bool {
        true
    }

    open spec fn spec_latex(input: &IntMatrix) -> Seq<char> {
        environment_matrix_latex(*input, LatexEnvironment::Braced)
    }

    fn write_latex(dest: &mut String, input: &IntMatrix) {
        write_environment_matrix(dest, input, LatexEnvironment::Braced);
    }
}

/// Serializer of matrices in the `vmatrix` environment (single vertical bars), e.g.
/// `\begin{vmatrix}1&2\\3&4\end{vmatrix}`.
pub struct VBarDelimitedMatrixFormatter;

impl LatexFormatter<IntMatrix> for VBarDelimitedMatrixFormatter {
    open spec fn admits(input: &IntMatrix) -> bool {
        true
    }

    open spec fn spec_latex(input: &IntMatrix) -> Seq<char> {
        environment_matrix_latex(*input, LatexEnvironment::VBarDelimited)
    }

    fn write_latex(dest: &mut String, input: &IntMatrix) {
        write_environment_matrix(dest, input, LatexEnvironment::VBarDelimited);
    }
}

/// Serializer of matrices in the `Vmatrix` environment (double vertical bars), e.g.
/// `\begin{Vmatrix}1&2\\3&4\end{Vmatrix}`.
pub struct DoubleVBarDelimitedMatrixFormatter;

impl LatexFormatter<IntMatrix> for DoubleVBarDelimitedMatrixFormatter {
    open spec fn admits(input: &IntMatrix) -> bool {
        true
    }

    open spec fn spec_latex(input: &IntMatrix) -> Seq<char> {
        environment_matrix_latex(*input, LatexEnvironment::DoubleVBarDelimited)
    }

    fn write_latex(dest: &mut String, input: &IntMatrix) {
        write_environment_matrix(dest, input, LatexEnvironment::DoubleVBarDelimited);
    }
}

} // verus!
