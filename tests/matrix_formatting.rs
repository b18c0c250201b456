use nalgebra_latex::env::LatexEnvironment;
use nalgebra_latex::fmt::{
    write_matrix, write_matrix_contents, BracedMatrixFormatter, BracketedMatrixFormatter,
    DoubleVBarDelimitedMatrixFormatter, LatexFormatter, ParenthesizedMatrixFormatter,
    PlainMatrixContentsFormatter, PlainMatrixFormatter, VBarDelimitedMatrixFormatter,
};
use nalgebra_latex::latex_modes::{
    delimiting_required, InvalidModeTransitionError, LatexModeKind, MathLatexModeKind,
};
use nalgebra_latex::matrix::IntMatrix;

fn three_by_four() -> IntMatrix {
    IntMatrix::from_row_slice(3, 4, &[1, 2, 3, 4, 5, 6, 7, 8, 9, 10, 11, 12]).unwrap()
}

const BODY: &str = r"1&2&3&4\\5&6&7&8\\9&10&11&12";

#[test]
fn plain_matrix_without_delimiter() {
    let mut s = String::new();
    PlainMatrixFormatter::write_latex(&mut s, &three_by_four());
    assert_eq!(s, r"\begin{matrix}1&2&3&4\\5&6&7&8\\9&10&11&12\end{matrix}");
}

#[test]
fn parenthesized_matrix_inline() {
    let mut s = String::new();
    ParenthesizedMatrixFormatter::write_delimited_latex(
        &mut s,
        &three_by_four(),
        Some(MathLatexModeKind::InlineMathMode),
    );
    assert_eq!(s, r"$\begin{pmatrix}1&2&3&4\\5&6&7&8\\9&10&11&12\end{pmatrix}$");
}

#[test]
fn plain_matrix_display() {
    let mut s = String::new();
    PlainMatrixFormatter::write_delimited_latex(
        &mut s,
        &three_by_four(),
        Some(MathLatexModeKind::DisplayMathMode),
    );
    assert_eq!(s, format!(r"$$\begin{{matrix}}{}\end{{matrix}}$$", BODY));
}

#[test]
fn contents_only() {
    let mut s = String::new();
    PlainMatrixContentsFormatter::write_latex(&mut s, &three_by_four());
    assert_eq!(s, BODY);
}

#[test]
fn every_environment_has_its_tags() {
    let m = three_by_four();
    let mut s = String::new();
    BracketedMatrixFormatter::write_latex(&mut s, &m);
    assert_eq!(s, format!(r"\begin{{bmatrix}}{}\end{{bmatrix}}", BODY));
    s.clear();
    BracedMatrixFormatter::write_latex(&mut s, &m);
    assert_eq!(s, format!(r"\begin{{Bmatrix}}{}\end{{Bmatrix}}", BODY));
    s.clear();
    VBarDelimitedMatrixFormatter::write_latex(&mut s, &m);
    assert_eq!(s, format!(r"\begin{{vmatrix}}{}\end{{vmatrix}}", BODY));
    s.clear();
    DoubleVBarDelimitedMatrixFormatter::write_latex(&mut s, &m);
    assert_eq!(s, format!(r"\begin{{Vmatrix}}{}\end{{Vmatrix}}", BODY));
    s.clear();
    write_matrix(&mut s, &m, LatexEnvironment::Cases, None);
    assert_eq!(s, format!(r"\begin{{cases}}{}\end{{cases}}", BODY));
}

#[test]
fn empty_matrices_have_empty_contents() {
    for (r, c) in [(0usize, 0usize), (0, 3), (3, 0)] {
        let m = IntMatrix::from_row_slice(r, c, &[]).unwrap();
        let mut s = String::new();
        write_matrix_contents(&mut s, &m);
        assert_eq!(s, "");
        write_matrix(&mut s, &m, LatexEnvironment::Plain, None);
        assert_eq!(s, r"\begin{matrix}\end{matrix}");
    }
}

#[test]
fn separator_counts() {
    let m = three_by_four();
    let mut s = String::new();
    write_matrix_contents(&mut s, &m);
    for row in s.split(r"\\") {
        assert_eq!(row.matches('&').count(), 3);
    }
    assert_eq!(s.matches(r"\\").count(), 2);
    assert_eq!(s.matches('&').count(), 9);
}

#[test]
fn one_cell_matrix() {
    let m = IntMatrix::from_row_slice(1, 1, &[7]).unwrap();
    let mut s = String::new();
    write_matrix_contents(&mut s, &m);
    assert_eq!(s, "7");
}

#[test]
fn cells_in_decimal() {
    let m = IntMatrix::from_row_slice(2, 3, &[0, -8, 100, i64::MIN, i64::MAX, -1]).unwrap();
    let mut s = String::new();
    write_matrix_contents(&mut s, &m);
    assert_eq!(s, r"0&-8&100\\-9223372036854775808&9223372036854775807&-1");
}

#[test]
fn column_vector() {
    let m = IntMatrix::from_row_slice(3, 1, &[1, 2, 3]).unwrap();
    let mut s = String::new();
    write_matrix_contents(&mut s, &m);
    assert_eq!(s, r"1\\2\\3");
}

#[test]
fn appends_after_existing_text() {
    let mut s = String::from("A=");
    PlainMatrixFormatter::write_latex(&mut s, &IntMatrix::from_row_slice(1, 2, &[1, 2]).unwrap());
    assert_eq!(s, r"A=\begin{matrix}1&2\end{matrix}");
}

#[test]
fn same_matrix_twice_gives_same_text() {
    let m = three_by_four();
    let mut a = String::new();
    let mut b = String::new();
    write_matrix(&mut a, &m, LatexEnvironment::Braced, Some(MathLatexModeKind::InlineMathMode));
    write_matrix(&mut b, &m, LatexEnvironment::Braced, Some(MathLatexModeKind::InlineMathMode));
    assert_eq!(a, b);
}

#[test]
fn stripping_tags_gives_contents_back() {
    let m = three_by_four();
    for env in [
        LatexEnvironment::Plain,
        LatexEnvironment::Parenthesized,
        LatexEnvironment::Bracketed,
        LatexEnvironment::Braced,
        LatexEnvironment::VBarDelimited,
        LatexEnvironment::DoubleVBarDelimited,
        LatexEnvironment::Cases,
    ] {
        let mut s = String::new();
        write_matrix(&mut s, &m, env, None);
        let open = format!(r"\begin{{{}}}", env.name());
        let close = format!(r"\end{{{}}}", env.name());
        let inner = s.strip_prefix(&open).unwrap().strip_suffix(&close).unwrap();
        assert_eq!(inner, BODY);
    }
}

#[test]
fn mode_decides_delimiters() {
    let m = IntMatrix::from_row_slice(1, 2, &[1, 2]).unwrap();
    let mut s = String::new();
    let r = PlainMatrixFormatter::write_latex_in_mode(
        &mut s,
        &m,
        LatexModeKind::InnerParagraphMode,
        MathLatexModeKind::InlineMathMode,
    );
    assert_eq!(r, Ok(()));
    assert_eq!(s, r"$\begin{matrix}1&2\end{matrix}$");
    s.clear();
    let r = PlainMatrixFormatter::write_latex_in_mode(
        &mut s,
        &m,
        LatexModeKind::DisplayMathMode,
        MathLatexModeKind::DisplayMathMode,
    );
    assert_eq!(r, Ok(()));
    assert_eq!(s, r"\begin{matrix}1&2\end{matrix}");
}

#[test]
fn switching_math_modes_is_refused() {
    let m = IntMatrix::from_row_slice(1, 2, &[1, 2]).unwrap();
    let mut s = String::from("x");
    let r = PlainMatrixFormatter::write_latex_in_mode(
        &mut s,
        &m,
        LatexModeKind::InlineMathMode,
        MathLatexModeKind::DisplayMathMode,
    );
    assert_eq!(r, Err(InvalidModeTransitionError));
    assert_eq!(s, "x");
    assert_eq!(
        delimiting_required(LatexModeKind::DisplayMathMode, MathLatexModeKind::InlineMathMode),
        Err(InvalidModeTransitionError)
    );
    assert_eq!(
        delimiting_required(LatexModeKind::VerticalMode, MathLatexModeKind::InlineMathMode),
        Ok(true)
    );
}

#[test]
fn matrix_shape_and_cells() {
    let m = three_by_four();
    assert_eq!(m.shape(), (3, 4));
    assert_eq!(m.get(0, 0), Some(1));
    assert_eq!(m.get(1, 2), Some(7));
    assert_eq!(m.get(2, 3), Some(12));
    assert_eq!(m.get(3, 0), None);
    assert_eq!(m.get(0, 4), None);
}

#[test]
fn wrong_cell_count_is_refused() {
    assert!(IntMatrix::from_row_slice(2, 2, &[1, 2, 3]).is_none());
    assert!(IntMatrix::from_row_slice(usize::MAX, 2, &[]).is_none());
    assert!(IntMatrix::from_row_slice(0, usize::MAX, &[]).is_some());
}
