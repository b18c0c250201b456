//! Hyperlinks to named places of a document.
use vstd::prelude::*;
use crate::latex_flavors::SupportedFlavor;
use crate::latex_modes::LatexModeKind;
use crate::text::push_char;

verus! {

/// A link whose text `reference` points at the anchor `referent`, e.g. the
/// text `Hadamard product` pointing at `hadamard_product`.
pub struct Hyperlink<'a> {
    pub referent: &'a str,
    pub reference: &'a str,
}

/// The markup of a hyperlink. Where `flavor` has hyperlinks (AMS-LaTeX) it is
/// `\hyperlink{referent}{\textit{reference}}`. Otherwise the text alone is
/// emphasized: `*reference*` in inner paragraph mode (Markdown emphasis), and
/// `\textit{reference}` in any other mode.
pub open spec fn hyperlink_latex(
    referent: Seq<char>,
    reference: Seq<char>,
    flavor: SupportedFlavor,
    mode: LatexModeKind,
) -> Seq<char> {
    if flavor == SupportedFlavor::AmsLatex {
        "\\hyperlink{"@ + referent + "}{"@ + "\\textit{"@ + reference + seq!['}'] + seq!['}']
    } else if mode == LatexModeKind::InnerParagraphMode {
        seq!['*'] + reference + seq!['*']
    } else {
        "\\textit{"@ + reference + seq!['}']
    }
}

impl<'a> Hyperlink<'a> {
    /// The link with text `reference` to the anchor `referent`.
    pub fn new(referent: &'a str, reference: &'a str) -> (r: Self)
        ensures
            r.referent@ == referent@,
            r.reference@ == reference@,
    {
        Hyperlink { referent, reference }
    }

    /// Appends the markup of the link for `flavor`, written in mode `mode`.
    pub fn refer(&self, w: &mut String, flavor: SupportedFlavor, mode: LatexModeKind)
        ensures
            final(w)@ == old(w)@ + hyperlink_latex(self.referent@, self.reference@, flavor, mode),
    {
        let is_hyperlink_supported = match flavor {
            SupportedFlavor::AmsLatex => true,
            SupportedFlavor::MathJax => false,
        };
        let emphasized_text = !is_hyperlink_supported && mode == LatexModeKind::InnerParagraphMode;
        if is_hyperlink_supported {
            w.append("\\hyperlink{");
            w.append(self.referent);
            w.append("}{");
        }
        if emphasized_text {
            push_char(w, '*');
        } else {
            w.append("\\textit{");
        }
        w.append(self.reference);
        if emphasized_text {
            push_char(w, '*');
        } else {
            push_char(w, '}');
        }
        if is_hyperlink_supported {
            push_char(w, '}');
        }
        assert(w@ =~= old(w)@ + hyperlink_latex(self.referent@, self.reference@, flavor, mode));
    }
}

} // verus!
