use nalgebra_latex::hyperref::Hyperlink;
use nalgebra_latex::latex_flavors::SupportedFlavor;
use nalgebra_latex::latex_modes::{
    CategorizedLatexModeKind, DisplayMathMode, InlineMathMode, InnerParagraphMode,
    InvalidModeTransitionError, LatexMode, LatexModeCategory, LatexModeKind, MathLatexMode,
    MathLatexModeKind, VerticalLatexModeKind, VerticalMode,
};
use nalgebra_latex::latex_writer::Writer;

#[test]
fn dollar_signs_switch_modes() {
    let mut w = Writer::new(String::new(), SupportedFlavor::MathJax, LatexModeKind::InnerParagraphMode);
    assert_eq!(w.write_dollar_sign(), Ok(()));
    assert_eq!(w.mode(), LatexModeKind::InlineMathMode);
    w.write_str("x");
    assert_eq!(w.write_two_dollar_signs(), Err(InvalidModeTransitionError));
    assert_eq!(w.write_dollar_sign(), Ok(()));
    assert_eq!(w.mode(), LatexModeKind::InnerParagraphMode);
    assert_eq!(w.write_two_dollar_signs(), Ok(()));
    assert_eq!(w.mode(), LatexModeKind::DisplayMathMode);
    assert_eq!(w.write_dollar_sign(), Err(InvalidModeTransitionError));
    w.write_char('y');
    assert_eq!(w.write_two_dollar_signs(), Ok(()));
    assert_eq!(w.flavor(), SupportedFlavor::MathJax);
    assert_eq!(w.into_raw_parts(), "$x$$$y$$");
}

#[test]
fn vertical_mode_has_no_dollar_signs() {
    let mut w = Writer::new(String::from("p"), SupportedFlavor::AmsLatex, LatexModeKind::VerticalMode);
    assert_eq!(w.write_dollar_sign(), Err(InvalidModeTransitionError));
    w.switch_mode_unchecked(LatexModeKind::InnerParagraphMode);
    assert_eq!(w.write_dollar_sign(), Ok(()));
    assert_eq!(w.into_raw_parts(), "p$");
}

#[test]
fn hyperlinks_by_flavor_and_mode() {
    let h = Hyperlink::new("hadamard_product", "Hadamard product");
    let mut s = String::new();
    h.refer(&mut s, SupportedFlavor::AmsLatex, LatexModeKind::InnerParagraphMode);
    assert_eq!(s, r"\hyperlink{hadamard_product}{\textit{Hadamard product}}");
    s.clear();
    h.refer(&mut s, SupportedFlavor::MathJax, LatexModeKind::InnerParagraphMode);
    assert_eq!(s, "*Hadamard product*");
    s.clear();
    h.refer(&mut s, SupportedFlavor::MathJax, LatexModeKind::InlineMathMode);
    assert_eq!(s, r"\textit{Hadamard product}");
}

#[test]
fn mode_categories() {
    assert_eq!(InlineMathMode.category(), LatexModeCategory::Math);
    assert_eq!(DisplayMathMode.category_enum(), MathLatexModeKind::DisplayMathMode);
    assert_eq!(InnerParagraphMode.kind(), LatexModeKind::InnerParagraphMode);
    assert_eq!(InnerParagraphMode.category(), LatexModeCategory::Horizontal);
    assert_eq!(
        VerticalMode.categorized_kind(),
        CategorizedLatexModeKind::Vertical(VerticalLatexModeKind::VerticalMode)
    );
    assert_eq!(
        LatexModeKind::InternalVerticalMode.category(),
        LatexModeCategory::Vertical
    );
    assert_eq!(
        MathLatexModeKind::InlineMathMode.kind(),
        LatexModeKind::InlineMathMode
    );
}
