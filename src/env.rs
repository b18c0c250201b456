//! LaTeX environments: the named `\begin{NAME}...\end{NAME}` blocks that the
//! serializers wrap their output in.
use vstd::prelude::*;

verus! {

/// The environments that a matrix or a linear system can be written in.
#[derive(Clone, Copy, Debug, PartialEq, Eq, Structural)]
pub enum LatexEnvironment {
    /// `matrix`: no delimiters.
    Plain,
    /// `pmatrix`: parentheses.
    Parenthesized,
    /// `bmatrix`: brackets.
    Bracketed,
    /// `Bmatrix`: braces.
    Braced,
    /// `vmatrix`: single vertical bars.
    VBarDelimited,
    /// `Vmatrix`: double vertical bars.
    DoubleVBarDelimited,
    /// `cases`: the environment of linear systems.
    Cases,
}

impl LatexEnvironment {
    /// The environment's name, as written between the braces of its tags.
    pub open spec fn spec_name(self) -> Seq<char> {
        match self {
            LatexEnvironment::Plain => "matrix"@,
            LatexEnvironment::Parenthesized => "pmatrix"@,
            LatexEnvironment::Bracketed => "bmatrix"@,
            LatexEnvironment::Braced => "Bmatrix"@,
            LatexEnvironment::VBarDelimited => "vmatrix"@,
            LatexEnvironment::DoubleVBarDelimited => "Vmatrix"@,
            LatexEnvironment::Cases => "cases"@,
        }
    }

    /// `\begin{NAME}`.
    pub open spec fn spec_opening_tag(self) -> Seq<char> {
        "\\begin{"@ + self.spec_name() + "}"@
    }

    /// `\end{NAME}`.
    pub open spec fn spec_closing_tag(self) -> Seq<char> {
        "\\end{"@ + self.spec_name() + "}"@
    }

    /// The environment's name.
    pub fn name(&self) -> (r: &'static str)
        ensures
            r@ == self.spec_name(),
    {
        match self {
            LatexEnvironment::Plain => "matrix",
            LatexEnvironment::Parenthesized => "pmatrix",
            LatexEnvironment::Bracketed => "bmatrix",
            LatexEnvironment::Braced => "Bmatrix",
            LatexEnvironment::VBarDelimited => "vmatrix",
            LatexEnvironment::DoubleVBarDelimited => "Vmatrix",
            LatexEnvironment::Cases => "cases",
        }
    }

    /// Appends the environment's name.
    pub fn write_name(&self, dest: &mut String)
        ensures
            final(dest)@ == old(dest)@ + self.spec_name(),
    {
        dest.append(self.name());
    }

    /// Appends `\begin{NAME}`.
    pub fn write_opening_tag(&self, dest: &mut String)
        ensures
            final(dest)@ == old(dest)@ + self.spec_opening_tag(),
    {
        dest.append("\\begin{");
        self.write_name(dest);
        dest.append("}");
        assert(dest@ =~= old(dest)@ + self.spec_opening_tag());
    }

    /// Appends `\end{NAME}`.
    pub fn write_closing_tag(&self, dest: &mut String)
        ensures
            final(dest)@ == old(dest)@ + self.spec_closing_tag(),
    {
        dest.append("\\end{");
        self.write_name(dest);
        dest.append("}");
        assert(dest@ =~= old(dest)@ + self.spec_closing_tag());
    }
}

} // verus!
