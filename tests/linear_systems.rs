use nalgebra_latex::fmt::labels::{Counters, CountersChange, LabelGenerationError};
use nalgebra_latex::fmt::LatexFormatter;
use nalgebra_latex::latex_flavors::SupportedFlavor;
use nalgebra_latex::latex_modes::{LatexModeKind, MathLatexModeKind};
use nalgebra_latex::latex_writer::Writer;
use nalgebra_latex::lin_sys::fmt::{CasesLinSysFormatter, PlainLinSysFormatter};
use nalgebra_latex::lin_sys::unknowns::{
    SingleLetterBoldfaceVecOfDistinctSingleLetterUnknowns, SingleLetterBoldfaceVecOfUnknowns,
    Unknowns,
};
use nalgebra_latex::lin_sys::{LinSys, Numbering, OutOfBoundsError};
use nalgebra_latex::matrix::IntMatrix;

fn system() -> LinSys<SingleLetterBoldfaceVecOfUnknowns> {
    let m = IntMatrix::from_row_slice(3, 3, &[1, 2, 3, 4, 5, 6, 7, 8, 9]).unwrap();
    let x = SingleLetterBoldfaceVecOfUnknowns::new('x', 2, Numbering::OneBased);
    LinSys::new(m, x).unwrap()
}

#[test]
fn linear_system_equations() {
    let mut s = String::new();
    PlainLinSysFormatter::write_latex(&mut s, &system());
    assert_eq!(s, r"1x_{1}+2x_{2}=3\\4x_{1}+5x_{2}=6\\7x_{1}+8x_{2}=9");
}

#[test]
fn linear_system_in_cases_inline() {
    let mut s = String::new();
    CasesLinSysFormatter::write_delimited_latex(
        &mut s,
        &system(),
        Some(MathLatexModeKind::InlineMathMode),
    );
    assert_eq!(
        s,
        r"$\begin{cases}1x_{1}+2x_{2}=3\\4x_{1}+5x_{2}=6\\7x_{1}+8x_{2}=9\end{cases}$"
    );
    let mut t = String::new();
    let r = CasesLinSysFormatter::write_latex_in_mode(
        &mut t,
        &system(),
        LatexModeKind::InnerParagraphMode,
        MathLatexModeKind::InlineMathMode,
    );
    assert_eq!(r, Ok(()));
    assert_eq!(s, t);
}

#[test]
fn zero_based_unknowns() {
    let x = SingleLetterBoldfaceVecOfUnknowns::new('x', 3, Numbering::ZeroBased);
    for (i, expected) in ["x_{0}", "x_{1}", "x_{2}"].iter().enumerate() {
        let mut s = String::new();
        assert_eq!(x.write_ith(&mut s, i), Ok(()));
        assert_eq!(&s, expected);
    }
}

#[test]
fn one_based_unknowns() {
    let x = SingleLetterBoldfaceVecOfUnknowns::new('x', 3, Numbering::OneBased);
    for (i, expected) in ["x_{1}", "x_{2}", "x_{3}"].iter().enumerate() {
        let mut s = String::new();
        assert_eq!(x.write_ith(&mut s, i), Ok(()));
        assert_eq!(&s, expected);
    }
}

#[test]
fn unknown_index_bounds() {
    let x = SingleLetterBoldfaceVecOfUnknowns::new('y', 3, Numbering::ZeroBased);
    for i in 0..3 {
        assert_eq!(x.validate_idx(i), Ok(()));
    }
    for i in [3usize, 4, 100, usize::MAX] {
        let mut s = String::from("a");
        assert_eq!(x.write_ith(&mut s, i), Err(OutOfBoundsError));
        assert_eq!(s, "a");
    }
    let empty = SingleLetterBoldfaceVecOfUnknowns::new('y', 0, Numbering::OneBased);
    assert!(empty.is_empty());
    assert_eq!(empty.validate_idx(0), Err(OutOfBoundsError));
}

#[test]
fn vector_names() {
    let x = SingleLetterBoldfaceVecOfUnknowns::new('x', 2, Numbering::ZeroBased);
    let mut s = String::new();
    x.write(&mut s);
    assert_eq!(s, r"\textbf{x}");
    let v = SingleLetterBoldfaceVecOfDistinctSingleLetterUnknowns::new('v', ['a', 'b', 'c']);
    let mut s = String::new();
    v.write(&mut s);
    assert_eq!(s, r"\textbf{v}");
    assert_eq!(v.len(), Ok(3));
}

#[test]
fn distinct_letter_unknowns() {
    let v = SingleLetterBoldfaceVecOfDistinctSingleLetterUnknowns::new('v', ['a', 'b']);
    let mut s = String::new();
    assert_eq!(v.write_ith(&mut s, 1), Ok(()));
    assert_eq!(s, "b");
    assert_eq!(v.write_ith(&mut s, 2), Err(OutOfBoundsError));
    let m = IntMatrix::from_row_slice(2, 3, &[1, 0, 5, -2, 3, 0]).unwrap();
    let ls = LinSys::new(m, v).unwrap();
    let mut s = String::new();
    PlainLinSysFormatter::write_latex(&mut s, &ls);
    assert_eq!(s, r"1a+0b=5\\-2a+3b=0");
}

#[test]
fn construction_checks_unknown_count() {
    let m = IntMatrix::from_row_slice(2, 3, &[1, 2, 3, 4, 5, 6]).unwrap();
    let x = SingleLetterBoldfaceVecOfUnknowns::new('x', 3, Numbering::OneBased);
    assert!(LinSys::new(m, x).is_none());
    let m = IntMatrix::from_row_slice(2, 0, &[]).unwrap();
    let x = SingleLetterBoldfaceVecOfUnknowns::new('x', 0, Numbering::OneBased);
    assert!(LinSys::new(m, x).is_none());
}

#[test]
fn single_column_system_is_empty() {
    let m = IntMatrix::from_row_slice(2, 1, &[1, 2]).unwrap();
    let x = SingleLetterBoldfaceVecOfUnknowns::new('x', 0, Numbering::OneBased);
    let ls = LinSys::new(m, x).unwrap();
    let mut s = String::new();
    PlainLinSysFormatter::write_latex(&mut s, &ls);
    assert_eq!(s, "");
}

#[test]
fn single_unknown_system() {
    let m = IntMatrix::from_row_slice(1, 2, &[-3, 12]).unwrap();
    let x = SingleLetterBoldfaceVecOfUnknowns::new('t', 1, Numbering::ZeroBased);
    let ls = LinSys::new(m, x).unwrap();
    let mut s = String::new();
    PlainLinSysFormatter::write_latex(&mut s, &ls);
    assert_eq!(s, "-3t_{0}=12");
}

fn label_name(l: &nalgebra_latex::fmt::labels::CountersLabel) -> String {
    let mut s = String::new();
    l.write_name(&mut s);
    s
}

#[test]
fn equation_labels() {
    let mut c = Counters::new();
    assert_eq!(label_name(&c.increment_equation().unwrap()), "1");
    assert_eq!(label_name(&c.increment_equation().unwrap()), "2");
    assert_eq!(label_name(&c.increment_equation().unwrap()), "3");
    let a = c.add_subequation().unwrap();
    assert!(a.is_subeq());
    assert_eq!(label_name(&a), "3a");
    assert_eq!(label_name(&c.increment_subequation().unwrap()), "3b");
    assert_eq!(label_name(&c.increment_equation().unwrap()), "4");
    assert_eq!(c.equation(), 4);
    assert_eq!(c.subeq(), 0);
}

#[test]
fn subequation_letters_run_out() {
    let mut c = Counters::new();
    assert!(matches!(c.increment_subequation(), Err(LabelGenerationError)));
    c.increment_equation().unwrap();
    let mut last = String::new();
    for _ in 0..26 {
        last = label_name(&c.next_label(CountersChange::AddSubeq).unwrap());
    }
    assert_eq!(last, "1z");
    assert!(matches!(c.add_subequation(), Err(LabelGenerationError)));
    assert!(matches!(c.increment_subequation(), Err(LabelGenerationError)));
    assert_eq!(c.subeq(), 26);
}

#[test]
fn label_references() {
    let mut c = Counters::new();
    let eq = c.increment_equation().unwrap();
    let sub = c.add_subequation().unwrap();
    let mut s = String::new();
    eq.write_as_latex(&mut s, SupportedFlavor::MathJax);
    sub.write_as_latex(&mut s, SupportedFlavor::MathJax);
    sub.write_as_latex(&mut s, SupportedFlavor::AmsLatex);
    assert_eq!(s, r"\eqref{1}(1a)\eqref{1a}");
}

#[test]
fn labels_in_display_math() {
    let mut c = Counters::new();
    let mut w = Writer::new(String::new(), SupportedFlavor::MathJax, LatexModeKind::DisplayMathMode);
    c.write_next_label(&mut w, CountersChange::IncrementEquation).unwrap();
    c.write_next_label(&mut w, CountersChange::AddSubeq).unwrap();
    assert_eq!(w.into_raw_parts(), r"\tag{1}\label{1}& (1a)");
    let mut w = Writer::new(String::new(), SupportedFlavor::AmsLatex, LatexModeKind::DisplayMathMode);
    c.write_next_label(&mut w, CountersChange::IncrementSubeq).unwrap();
    assert_eq!(w.into_raw_parts(), r"\tag{1b}\label{1b}");
}

#[test]
fn labelled_cases_block() {
    let mut c = Counters::new();
    let mut w = Writer::new(String::from("See "), SupportedFlavor::AmsLatex, LatexModeKind::InnerParagraphMode);
    let label = CasesLinSysFormatter::format_as_labelled_display_math_block(&mut w, &mut c, &system())
        .unwrap();
    assert_eq!(label_name(&label), "1");
    assert_eq!(w.mode(), LatexModeKind::InnerParagraphMode);
    assert_eq!(
        w.into_raw_parts(),
        r"See $$\begin{cases}1x_{1}+2x_{2}=3\\4x_{1}+5x_{2}=6\\7x_{1}+8x_{2}=9\end{cases}\tag{1}\label{1}$$"
    );
}
