//! A writer that keeps track of the LaTeX mode its text ends in.
use vstd::prelude::*;
use crate::fmt::labels::CountersLabel;
use crate::fmt::LatexFormatter;
use crate::latex_flavors::SupportedFlavor;
use crate::latex_modes::{InvalidModeTransitionError, LatexModeKind};
use crate::text::push_char;

verus! {

/// The markup that labels a display-math block: `\tag{L}\label{L}`, except
/// for a sub-equation in MathJax, which has no sub-equation labels and gets
/// `& (L)` instead.
pub open spec fn label_markup(flavor: SupportedFlavor, label: CountersLabel) -> Seq<char> {
    if flavor == SupportedFlavor::MathJax && label.spec_is_subeq() {
        "& ("@ + label.spec_name() + seq![')']
    } else {
        "\\tag{"@ + label.spec_name() + seq!['}'] + "\\label{"@ + label.spec_name() + seq!['}']
    }
}

/// The mode that a `$` leads to from `mode`: from inner paragraph mode into
/// inline math and back.
pub open spec fn after_dollar_sign(mode: LatexModeKind) -> Option<LatexModeKind> {
    match mode {
        LatexModeKind::InnerParagraphMode => Some(LatexModeKind::InlineMathMode),
        LatexModeKind::InlineMathMode => Some(LatexModeKind::InnerParagraphMode),
        _ => None,
    }
}

/// The mode that `$$` leads to from `mode`: from inner paragraph mode into
/// display math and back.
pub open spec fn after_two_dollar_signs(mode: LatexModeKind) -> Option<LatexModeKind> {
    match mode {
        LatexModeKind::InnerParagraphMode => Some(LatexModeKind::DisplayMathMode),
        LatexModeKind::DisplayMathMode => Some(LatexModeKind::InnerParagraphMode),
        _ => None,
    }
}

/// LaTeX text written for a flavor, with the mode that the text ends in.
pub struct Writer {
    writer: String,
    flavor: SupportedFlavor,
    mode: LatexModeKind,
}

impl Writer {
    /// The text written so far.
    pub closed spec fn spec_text(&self) -> Seq<char> {
        self.writer@
    }

    /// The flavor the text is written for.
    pub closed spec fn spec_flavor(&self) -> SupportedFlavor {
        self.flavor
    }

    /// The mode the text ends in.
    pub closed spec fn spec_mode(&self) -> LatexModeKind {
        self.mode
    }

    /// A writer that goes on from `writer`, whose text ends in `mode`.
    pub fn new(writer: String, flavor: SupportedFlavor, mode: LatexModeKind) -> (r: Self)
        ensures
            r.spec_text() == writer@,
            r.spec_flavor() == flavor,
            r.spec_mode() == mode,
    {
        Writer { writer, flavor, mode }
    }

    /// The mode the text ends in.
    pub fn mode(&self) -> (r: LatexModeKind)
        ensures
            r == self.spec_mode(),
    {
        self.mode
    }

    /// The flavor the text is written for.
    pub fn flavor(&self) -> (r: SupportedFlavor)
        ensures
            r == self.spec_flavor(),
    {
        self.flavor
    }

    /// The text written so far.
    pub fn into_raw_parts(self) -> (r: String)
        ensures
            r@ == self.spec_text(),
    {
        self.writer
    }

    /// Declares that the text now ends in `mode`, writing nothing.
    pub fn switch_mode_unchecked(&mut self, mode: LatexModeKind)
        ensures
            final(self).spec_text() == old(self).spec_text(),
            final(self).spec_flavor() == old(self).spec_flavor(),
            final(self).spec_mode() == mode,
    {
        self.mode = mode;
    }

    /// Appends `s`, which must leave the mode as it is.
    pub fn write_str(&mut self, s: &str)
        ensures
            final(self).spec_text() == old(self).spec_text() + s@,
            final(self).spec_flavor() == old(self).spec_flavor(),
            final(self).spec_mode() == old(self).spec_mode(),
    {
        self.writer.append(s);
    }

    /// Appends `c`, which must leave the mode as it is.
    pub fn write_char(&mut self, c: char)
        ensures
            final(self).spec_text() == old(self).spec_text().push(c),
            final(self).spec_flavor() == old(self).spec_flavor(),
            final(self).spec_mode() == old(self).spec_mode(),
    {
        push_char(&mut self.writer, c);
    }

    /// Appends the LaTeX text of `input` as `F` writes it, which must leave
    /// the mode as it is.
    pub fn write_latex<I, F: LatexFormatter<I>>(&mut self, input: &I)
        requires
            F::admits(input),
        ensures
            final(self).spec_text() == old(self).spec_text() + F::spec_latex(input),
            final(self).spec_flavor() == old(self).spec_flavor(),
            final(self).spec_mode() == old(self).spec_mode(),
    {
        F::write_latex(&mut self.writer, input);
    }

    /// Appends `$`, entering or leaving inline math; fails, writing nothing,
    /// unless the text is in inner paragraph mode or in inline math.
    pub fn write_dollar_sign(&mut self) -> (r: Result<(), InvalidModeTransitionError>)
        ensures
            r is Ok <==> after_dollar_sign(old(self).spec_mode()) is Some,
            r is Ok ==> final(self).spec_text() == old(self).spec_text().push('$')
                && Some(final(self).spec_mode()) == after_dollar_sign(old(self).spec_mode()),
            r is Err ==> *final(self) == *old(self),
            final(self).spec_flavor() == old(self).spec_flavor(),
    {
        let next = match self.mode {
            LatexModeKind::InnerParagraphMode => LatexModeKind::InlineMathMode,
            LatexModeKind::InlineMathMode => LatexModeKind::InnerParagraphMode,
            _ => {
                return Err(InvalidModeTransitionError);
            },
        };
        push_char(&mut self.writer, '$');
        self.mode = next;
        Ok(())
    }

    /// Appends `$$`, entering or leaving display math; fails, writing
    /// nothing, unless the text is in inner paragraph mode or in display
    /// math.
    pub fn write_two_dollar_signs(&mut self) -> (r: Result<(), InvalidModeTransitionError>)
        ensures
            r is Ok <==> after_two_dollar_signs(old(self).spec_mode()) is Some,
            r is Ok ==> final(self).spec_text() == old(self).spec_text() + seq!['$', '$']
                && Some(final(self).spec_mode()) == after_two_dollar_signs(old(self).spec_mode()),
            r is Err ==> *final(self) == *old(self),
            final(self).spec_flavor() == old(self).spec_flavor(),
    {
        let next = match self.mode {
            LatexModeKind::InnerParagraphMode => LatexModeKind::DisplayMathMode,
            LatexModeKind::DisplayMathMode => LatexModeKind::InnerParagraphMode,
            _ => {
                return Err(InvalidModeTransitionError);
            },
        };
        push_char(&mut self.writer, '$');
        push_char(&mut self.writer, '$');
        self.mode = next;
        assert(self.writer@ =~= old(self).writer@ + seq!['$', '$']);
        Ok(())
    }

    /// Appends the markup that labels the display-math block the text is in.
    pub fn write_label(&mut self, label: &CountersLabel)
        requires
            old(self).spec_mode() == LatexModeKind::DisplayMathMode,
        ensures
            final(self).spec_text() == old(self).spec_text() + label_markup(
                old(self).spec_flavor(),
                *label,
            ),
            final(self).spec_flavor() == old(self).spec_flavor(),
            final(self).spec_mode() == old(self).spec_mode(),
    {
        let subeq = label.is_subeq();
        if self.flavor == SupportedFlavor::MathJax && subeq {
            self.writer.append("& (");
            label.write_name(&mut self.writer);
            push_char(&mut self.writer, ')');
        } else {
            self.writer.append("\\tag{");
            label.write_name(&mut self.writer);
            push_char(&mut self.writer, '}');
            self.writer.append("\\label{");
            label.write_name(&mut self.writer);
            push_char(&mut self.writer, '}');
        }
        assert(self.writer@ =~= old(self).writer@ + label_markup(self.flavor, *label));
    }
}

} // verus!
