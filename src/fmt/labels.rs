//! Equation labels: `1`, `2`, `2a`, `2b`, ... generated by a pair of counters.
use vstd::prelude::*;
use crate::latex_flavors::SupportedFlavor;
use crate::latex_modes::LatexModeKind;
use crate::latex_writer::{label_markup, Writer};
use crate::text::{nat_digits, push_char, push_nat_digits};

verus! {

/// The largest number of sub-equations of one equation (`a` to `z`).
pub const MAX_SUBEQUATIONS: u8 = 26;

/// No further label can be generated: the equation counter is at its
/// largest, the sub-equations of the equation are used up, or a sub-equation
/// was asked for where none was started.
#[derive(Clone, Copy, Debug, PartialEq, Eq, Structural)]
pub struct LabelGenerationError;

/// The label of an equation, e.g. `3`.
pub struct EquationLabel(pub String);

/// The label of a sub-equation, e.g. `3b`.
pub struct SubeqLabel(pub String);

/// A label generated by [`Counters`].
pub enum CountersLabel {
    Equation(EquationLabel),
    Subeq(SubeqLabel),
}

/// The letter of the sub-equation at zero-based index `k` (`a` for 0).
pub open spec fn subeq_letter(k: nat) -> char {
    ((97 + k) as u8) as char
}

/// The label of equation `eq`.
pub open spec fn equation_label_text(eq: nat) -> Seq<char> {
    nat_digits(eq)
}

/// The label of the sub-equation at zero-based index `k` of equation `eq`.
pub open spec fn subeq_label_text(eq: nat, k: nat) -> Seq<char> {
    nat_digits(eq).push(subeq_letter(k))
}

impl CountersLabel {
    /// The text of the label.
    pub open spec fn spec_name(&self) -> Seq<char> {
        match self {
            CountersLabel::Equation(l) => l.0@,
            CountersLabel::Subeq(l) => l.0@,
        }
    }

    /// Whether the label is that of a sub-equation.
    pub open spec fn spec_is_subeq(&self) -> bool {
        self is Subeq
    }

    /// Whether the label is that of a sub-equation.
    pub fn is_subeq(&self) -> (r: bool)
        ensures
            r == self.spec_is_subeq(),
    {
        match self {
            CountersLabel::Equation(_) => false,
            CountersLabel::Subeq(_) => true,
        }
    }

    /// Appends the text of the label.
    pub fn write_name(&self, dest: &mut String)
        ensures
            final(dest)@ == old(dest)@ + self.spec_name(),
    {
        match self {
            CountersLabel::Equation(l) => dest.append(l.0.as_str()),
            CountersLabel::Subeq(l) => dest.append(l.0.as_str()),
        }
    }

    /// Whether `flavor` can refer to the label with `\eqref`: MathJax cannot
    /// refer to sub-equations.
    pub open spec fn spec_is_referencable(&self, flavor: SupportedFlavor) -> bool {
        match flavor {
            SupportedFlavor::AmsLatex => true,
            SupportedFlavor::MathJax => !self.spec_is_subeq(),
        }
    }

    /// A reference to the label in inline math: `\eqref{L}` where `flavor`
    /// can refer to it, and `(L)` otherwise.
    pub open spec fn spec_reference(&self, flavor: SupportedFlavor) -> Seq<char> {
        if self.spec_is_referencable(flavor) {
            "\\eqref{"@ + self.spec_name() + seq!['}']
        } else {
            seq!['('] + self.spec_name() + seq![')']
        }
    }

    /// Whether `flavor` can refer to the label with `\eqref`.
    pub fn is_referencable(&self, flavor: SupportedFlavor) -> (r: bool)
        ensures
            r == self.spec_is_referencable(flavor),
    {
        match flavor {
            SupportedFlavor::AmsLatex => true,
            SupportedFlavor::MathJax => !self.is_subeq(),
        }
    }

    /// Appends a reference to the label, for inline math.
    pub fn write_as_latex(&self, dest: &mut String, flavor: SupportedFlavor)
        ensures
            final(dest)@ == old(dest)@ + self.spec_reference(flavor),
    {
        let referencable = self.is_referencable(flavor);
        if referencable {
            dest.append("\\eqref{");
        } else {
            push_char(dest, '(');
        }
        self.write_name(dest);
        push_char(dest, if referencable { '}' } else { ')' });
        assert(dest@ =~= old(dest)@ + self.spec_reference(flavor));
    }
}

/// How [`Counters`] moves on to the next label.
#[derive(Clone, Copy, Debug, PartialEq, Eq, Structural)]
pub enum CountersChange {
    /// To the next equation, with no sub-equations: label `N`.
    IncrementEquation,
    /// To the next sub-equation of the current equation, starting them if
    /// none was started: label `Na`, `Nb`, ...
    AddSubeq,
    /// To the next sub-equation of the current equation, which must have
    /// started them.
    IncrementSubeq,
}

/// What moving the counters `before` on as `c` says does: the counters
/// `after` and the result `r`. It fails, changing nothing, when the equation
/// counter is at its largest (`IncrementEquation`), when all sub-equation
/// letters are used (`AddSubeq`, `IncrementSubeq`), or when no sub-equation
/// was started (`IncrementSubeq`).
pub open spec fn counters_step(
    c: CountersChange,
    before: Counters,
    after: Counters,
    r: Result<CountersLabel, LabelGenerationError>,
) -> bool {
    &&& r is Err ==> after == before
    &&& r is Err <==> match c {
        CountersChange::IncrementEquation => before.spec_equation() == usize::MAX,
        CountersChange::AddSubeq => before.spec_subeq() == MAX_SUBEQUATIONS,
        CountersChange::IncrementSubeq => before.spec_subeq() == 0 || before.spec_subeq()
            == MAX_SUBEQUATIONS,
    }
    &&& r is Ok ==> match c {
        CountersChange::IncrementEquation => {
            &&& after.spec_equation() == before.spec_equation() + 1
            &&& after.spec_subeq() == 0
            &&& r->Ok_0 is Equation
            &&& r->Ok_0.spec_name() == equation_label_text(after.spec_equation())
        },
        _ => {
            &&& after.spec_equation() == before.spec_equation()
            &&& after.spec_subeq() == before.spec_subeq() + 1
            &&& r->Ok_0 is Subeq
            &&& r->Ok_0.spec_name() == subeq_label_text(
                before.spec_equation(),
                before.spec_subeq(),
            )
        },
    }
}

/// The counters behind equation labels: the number of the current equation,
/// and how many of its sub-equations have been labelled.
pub struct Counters {
    equation: usize,
    subeq: u8,
}

impl Counters {
    /// The number of the current equation (0 before the first).
    pub closed spec fn spec_equation(&self) -> nat {
        self.equation as nat
    }

    /// How many sub-equations of the current equation have been labelled.
    pub closed spec fn spec_subeq(&self) -> nat {
        self.subeq as nat
    }

    /// At most [`MAX_SUBEQUATIONS`] sub-equations per equation.
    pub open spec fn wf(&self) -> bool {
        self.spec_subeq() <= MAX_SUBEQUATIONS
    }

    /// The counters before the first equation.
    pub fn new() -> (r: Self)
        ensures
            r.wf(),
            r.spec_equation() == 0,
            r.spec_subeq() == 0,
    {
        Counters { equation: 0, subeq: 0 }
    }

    /// The number of the current equation.
    pub fn equation(&self) -> (r: usize)
        ensures
            r == self.spec_equation(),
    {
        self.equation
    }

    /// How many sub-equations of the current equation have been labelled.
    pub fn subeq(&self) -> (r: u8)
        ensures
            r == self.spec_subeq(),
    {
        self.subeq
    }

    /// Moves the counters on as `c` says and returns the new label; fails,
    /// changing nothing, when the equation counter is at its largest
    /// (`IncrementEquation`), when all sub-equation letters are used
    /// (`AddSubeq`, `IncrementSubeq`), or when no sub-equation was started
    /// (`IncrementSubeq`).
    pub fn next_label(&mut self, c: CountersChange) -> (r: Result<CountersLabel, LabelGenerationError>)
        requires
            old(self).wf(),
        ensures
            final(self).wf(),
            counters_step(c, *old(self), *final(self), r),
    {
        match c {
            CountersChange::IncrementEquation => {
                if self.equation == usize::MAX {
                    return Err(LabelGenerationError);
                }
                self.equation = self.equation + 1;
                self.subeq = 0;
                let mut label = String::new();
                push_nat_digits(&mut label, self.equation as u64);
                Ok(CountersLabel::Equation(EquationLabel(label)))
            },
            _ => {
                if let CountersChange::IncrementSubeq = c {
                    if self.subeq == 0 {
                        return Err(LabelGenerationError);
                    }
                }
                if self.subeq == MAX_SUBEQUATIONS {
                    return Err(LabelGenerationError);
                }
                let mut label = String::new();
                push_nat_digits(&mut label, self.equation as u64);
                push_char(&mut label, (97u8 + self.subeq) as char);
                self.subeq = self.subeq + 1;
                assert(label@ =~= subeq_label_text(old(self).spec_equation(), old(self).spec_subeq()));
                Ok(CountersLabel::Subeq(SubeqLabel(label)))
            },
        }
    }
    /// Moves the counters on as `c` says and labels the display-math block
    /// that `dest` is in with the new label; on failure neither changes.
    pub fn write_next_label(&mut self, dest: &mut Writer, c: CountersChange) -> (r: Result<
        CountersLabel,
        LabelGenerationError,
    >)
        requires
            old(self).wf(),
            old(dest).spec_mode() == LatexModeKind::DisplayMathMode,
        ensures
            final(self).wf(),
            counters_step(c, *old(self), *final(self), r),
            r is Err ==> *final(dest) == *old(dest),
            r is Ok ==> final(dest).spec_text() == old(dest).spec_text() + label_markup(
                old(dest).spec_flavor(),
                r->Ok_0,
            ),
            final(dest).spec_flavor() == old(dest).spec_flavor(),
            final(dest).spec_mode() == old(dest).spec_mode(),
    {
        let label = self.next_label(c)?;
        dest.write_label(&label);
        Ok(label)
    }

    /// Moves on to the next equation: label `N`.
    pub fn increment_equation(&mut self) -> (r: Result<CountersLabel, LabelGenerationError>)
        requires
            old(self).wf(),
        ensures
            final(self).wf(),
            r is Err <==> old(self).spec_equation() == usize::MAX,
            r is Err ==> *final(self) == *old(self),
            r is Ok ==> final(self).spec_equation() == old(self).spec_equation() + 1
                && final(self).spec_subeq() == 0 && r->Ok_0 is Equation
                && r->Ok_0.spec_name() == equation_label_text(final(self).spec_equation()),
    {
        self.next_label(CountersChange::IncrementEquation)
    }

    /// Starts or continues the sub-equations of the current equation: label
    /// `Na`, then `Nb`, ...
    pub fn add_subequation(&mut self) -> (r: Result<CountersLabel, LabelGenerationError>)
        requires
            old(self).wf(),
        ensures
            final(self).wf(),
            r is Err <==> old(self).spec_subeq() == MAX_SUBEQUATIONS,
            r is Err ==> *final(self) == *old(self),
            r is Ok ==> final(self).spec_equation() == old(self).spec_equation()
                && final(self).spec_subeq() == old(self).spec_subeq() + 1 && r->Ok_0 is Subeq
                && r->Ok_0.spec_name() == subeq_label_text(
                old(self).spec_equation(),
                old(self).spec_subeq(),
            ),
    {
        self.next_label(CountersChange::AddSubeq)
    }

    /// Continues the sub-equations of the current equation, which must have
    /// been started.
    pub fn increment_subequation(&mut self) -> (r: Result<CountersLabel, LabelGenerationError>)
        requires
            old(self).wf(),
        ensures
            final(self).wf(),
            r is Err <==> old(self).spec_subeq() == 0 || old(self).spec_subeq()
                == MAX_SUBEQUATIONS,
            r is Err ==> *final(self) == *old(self),
            r is Ok ==> final(self).spec_equation() == old(self).spec_equation()
                && final(self).spec_subeq() == old(self).spec_subeq() + 1 && r->Ok_0 is Subeq
                && r->Ok_0.spec_name() == subeq_label_text(
                old(self).spec_equation(),
                old(self).spec_subeq(),
            ),
    {
        self.next_label(CountersChange::IncrementSubeq)
    }
}

} // verus!
