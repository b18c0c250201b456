//! LaTeX modes as run-time values.
//!
//! LaTeX is always in one of seven modes, in three categories: horizontal
//! (outer paragraph, inner paragraph, left-to-right), math (inline, display)
//! and vertical (vertical, internal vertical). The serializers use the mode a
//! piece of text starts in to decide whether math delimiters are needed.
use vstd::prelude::*;

verus! {

/// The three categories of LaTeX modes.
#[derive(Clone, Copy, Debug, PartialEq, Eq, Structural)]
pub enum LatexModeCategory {
    Horizontal,
    Math,
    Vertical,
}

/// The seven LaTeX modes.
#[derive(Clone, Copy, Debug, PartialEq, Eq, Structural)]
pub enum LatexModeKind {
    OuterParagraphMode,
    InnerParagraphMode,
    LRMode,
    InlineMathMode,
    DisplayMathMode,
    VerticalMode,
    InternalVerticalMode,
}

/// The horizontal modes.
#[derive(Clone, Copy, Debug, PartialEq, Eq, Structural)]
pub enum HorizontalLatexModeKind {
    OuterParagraphMode,
    InnerParagraphMode,
    LRMode,
}

/// The math modes.
#[derive(Clone, Copy, Debug, PartialEq, Eq, Structural)]
pub enum MathLatexModeKind {
    InlineMathMode,
    DisplayMathMode,
}

/// The vertical modes.
#[derive(Clone, Copy, Debug, PartialEq, Eq, Structural)]
pub enum VerticalLatexModeKind {
    VerticalMode,
    InternalVerticalMode,
}

/// A mode together with its category.
#[derive(Clone, Copy, Debug, PartialEq, Eq, Structural)]
pub enum CategorizedLatexModeKind {
    Horizontal(HorizontalLatexModeKind),
    Math(MathLatexModeKind),
    Vertical(VerticalLatexModeKind),
}

impl LatexModeKind {
    /// The category of the mode.
    pub open spec fn spec_category(self) -> LatexModeCategory {
        match self {
            LatexModeKind::OuterParagraphMode
            | LatexModeKind::InnerParagraphMode
            | LatexModeKind::LRMode => LatexModeCategory::Horizontal,
            LatexModeKind::InlineMathMode
            | LatexModeKind::DisplayMathMode => LatexModeCategory::Math,
            LatexModeKind::VerticalMode
            | LatexModeKind::InternalVerticalMode => LatexModeCategory::Vertical,
        }
    }

    /// The mode together with its category.
    pub open spec fn spec_categorized(self) -> CategorizedLatexModeKind {
        match self {
            LatexModeKind::OuterParagraphMode => CategorizedLatexModeKind::Horizontal(
                HorizontalLatexModeKind::OuterParagraphMode,
            ),
            LatexModeKind::InnerParagraphMode => CategorizedLatexModeKind::Horizontal(
                HorizontalLatexModeKind::InnerParagraphMode,
            ),
            LatexModeKind::LRMode => CategorizedLatexModeKind::Horizontal(
                HorizontalLatexModeKind::LRMode,
            ),
            LatexModeKind::InlineMathMode => CategorizedLatexModeKind::Math(
                MathLatexModeKind::InlineMathMode,
            ),
            LatexModeKind::DisplayMathMode => CategorizedLatexModeKind::Math(
                MathLatexModeKind::DisplayMathMode,
            ),
            LatexModeKind::VerticalMode => CategorizedLatexModeKind::Vertical(
                VerticalLatexModeKind::VerticalMode,
            ),
            LatexModeKind::InternalVerticalMode => CategorizedLatexModeKind::Vertical(
                VerticalLatexModeKind::InternalVerticalMode,
            ),
        }
    }
}

impl MathLatexModeKind {
    /// The mode as one of the seven.
    pub open spec fn spec_kind(self) -> LatexModeKind {
        match self {
            MathLatexModeKind::InlineMathMode => LatexModeKind::InlineMathMode,
            MathLatexModeKind::DisplayMathMode => LatexModeKind::DisplayMathMode,
        }
    }

    /// The delimiter that opens and closes a block in this mode: `$` for
    /// inline math, `$$` for display math.
    pub open spec fn spec_delimiter(self) -> Seq<char> {
        match self {
            MathLatexModeKind::InlineMathMode => seq!['$'],
            MathLatexModeKind::DisplayMathMode => seq!['$', '$'],
        }
    }
}

/// Asking for output in one math mode while the text around is in the other
/// math mode: LaTeX cannot switch between the two without leaving math mode.
#[derive(Clone, Copy, Debug, PartialEq, Eq, Structural)]
pub struct InvalidModeTransitionError;

/// Whether text that must be in the math mode `output` needs math delimiters
/// when the text around it is in mode `initial`: not when `initial` is that
/// same mode, never (`None`) when `initial` is the other math mode, and
/// otherwise yes.
pub open spec fn spec_delimiting_required(
    initial: LatexModeKind,
    output: MathLatexModeKind,
) -> Option<bool> {
    if initial == output.spec_kind() {
        Some(false)
    } else if initial.spec_category() == LatexModeCategory::Math {
        None
    } else {
        Some(true)
    }
}

/// Decides whether text in the math mode `output` must be wrapped in math
/// delimiters when it is written in mode `initial`.
pub fn delimiting_required(initial: LatexModeKind, output: MathLatexModeKind) -> (r: Result<
    bool,
    InvalidModeTransitionError,
>)
    ensures
        r is Ok <==> spec_delimiting_required(initial, output) is Some,
        r is Ok ==> Some(r->Ok_0) == spec_delimiting_required(initial, output),
{
    match (initial, output) {
        (LatexModeKind::InlineMathMode, MathLatexModeKind::InlineMathMode) => Ok(false),
        (LatexModeKind::DisplayMathMode, MathLatexModeKind::DisplayMathMode) => Ok(false),
        (LatexModeKind::InlineMathMode, _) => Err(InvalidModeTransitionError),
        (LatexModeKind::DisplayMathMode, _) => Err(InvalidModeTransitionError),
        _ => Ok(true),
    }
}

/// A value that stands for a LaTeX mode.
pub trait LatexMode {
    /// The mode that `self` stands for.
    spec fn spec_kind(&self) -> LatexModeKind;

    fn kind(&self) -> (r: LatexModeKind)
        ensures
            r == self.spec_kind(),
    ;

    /// The mode together with its category.
    fn categorized_kind(&self) -> (r: CategorizedLatexModeKind)
        ensures
            r == self.spec_kind().spec_categorized(),
    {
        match self.kind() {
            LatexModeKind::OuterParagraphMode => CategorizedLatexModeKind::Horizontal(
                HorizontalLatexModeKind::OuterParagraphMode,
            ),
            LatexModeKind::InnerParagraphMode => CategorizedLatexModeKind::Horizontal(
                HorizontalLatexModeKind::InnerParagraphMode,
            ),
            LatexModeKind::LRMode => CategorizedLatexModeKind::Horizontal(
                HorizontalLatexModeKind::LRMode,
            ),
            LatexModeKind::InlineMathMode => CategorizedLatexModeKind::Math(
                MathLatexModeKind::InlineMathMode,
            ),
            LatexModeKind::DisplayMathMode => CategorizedLatexModeKind::Math(
                MathLatexModeKind::DisplayMathMode,
            ),
            LatexModeKind::VerticalMode => CategorizedLatexModeKind::Vertical(
                VerticalLatexModeKind::VerticalMode,
            ),
            LatexModeKind::InternalVerticalMode => CategorizedLatexModeKind::Vertical(
                VerticalLatexModeKind::InternalVerticalMode,
            ),
        }
    }

    /// The category of the mode.
    fn category(&self) -> (r: LatexModeCategory)
        ensures
            r == self.spec_kind().spec_category(),
    {
        match self.kind() {
            LatexModeKind::OuterParagraphMode
            | LatexModeKind::InnerParagraphMode
            | LatexModeKind::LRMode => LatexModeCategory::Horizontal,
            LatexModeKind::InlineMathMode
            | LatexModeKind::DisplayMathMode => LatexModeCategory::Math,
            LatexModeKind::VerticalMode
            | LatexModeKind::InternalVerticalMode => LatexModeCategory::Vertical,
        }
    }
}

/// A horizontal mode.
pub trait HorizontalLatexMode: LatexMode {
    fn category_enum(&self) -> (r: HorizontalLatexModeKind)
        ensures
            self.spec_kind().spec_categorized() == CategorizedLatexModeKind::Horizontal(r),
    ;
}

/// A math mode.
pub trait MathLatexMode: LatexMode {
    fn category_enum(&self) -> (r: MathLatexModeKind)
        ensures
            self.spec_kind().spec_categorized() == CategorizedLatexModeKind::Math(r),
    ;
}

/// A vertical mode.
pub trait VerticalLatexMode: LatexMode {
    fn category_enum(&self) -> (r: VerticalLatexModeKind)
        ensures
            self.spec_kind().spec_categorized() == CategorizedLatexModeKind::Vertical(r),
    ;
}

impl LatexMode for LatexModeKind {
    open spec fn spec_kind(&self) -> LatexModeKind {
        *self
    }

    fn kind(&self) -> (r: LatexModeKind) {
        *self
    }
}

impl LatexMode for MathLatexModeKind {
    open spec fn spec_kind(&self) -> LatexModeKind {
        MathLatexModeKind::spec_kind(*self)
    }

    fn kind(&self) -> (r: LatexModeKind) {
        match self {
            MathLatexModeKind::InlineMathMode => LatexModeKind::InlineMathMode,
            MathLatexModeKind::DisplayMathMode => LatexModeKind::DisplayMathMode,
        }
    }
}

impl MathLatexMode for MathLatexModeKind {
    fn category_enum(&self) -> (r: MathLatexModeKind) {
        *self
    }
}

impl LatexMode for HorizontalLatexModeKind {
    open spec fn spec_kind(&self) -> LatexModeKind {
        match *self {
            HorizontalLatexModeKind::OuterParagraphMode => LatexModeKind::OuterParagraphMode,
            HorizontalLatexModeKind::InnerParagraphMode => LatexModeKind::InnerParagraphMode,
            HorizontalLatexModeKind::LRMode => LatexModeKind::LRMode,
        }
    }

    fn kind(&self) -> (r: LatexModeKind) {
        match self {
            HorizontalLatexModeKind::OuterParagraphMode => LatexModeKind::OuterParagraphMode,
            HorizontalLatexModeKind::InnerParagraphMode => LatexModeKind::InnerParagraphMode,
            HorizontalLatexModeKind::LRMode => LatexModeKind::LRMode,
        }
    }
}

impl HorizontalLatexMode for HorizontalLatexModeKind {
    fn category_enum(&self) -> (r: HorizontalLatexModeKind) {
        *self
    }
}

impl LatexMode for VerticalLatexModeKind {
    open spec fn spec_kind(&self) -> LatexModeKind {
        match *self {
            VerticalLatexModeKind::VerticalMode => LatexModeKind::VerticalMode,
            VerticalLatexModeKind::InternalVerticalMode => LatexModeKind::InternalVerticalMode,
        }
    }

    fn kind(&self) -> (r: LatexModeKind) {
        match self {
            VerticalLatexModeKind::VerticalMode => LatexModeKind::VerticalMode,
            VerticalLatexModeKind::InternalVerticalMode => LatexModeKind::InternalVerticalMode,
        }
    }
}

impl VerticalLatexMode for VerticalLatexModeKind {
    fn category_enum(&self) -> (r: VerticalLatexModeKind) {
        *self
    }
}

/// Marker of the outer paragraph mode.
pub struct OuterParagraphMode;

impl LatexMode for OuterParagraphMode {
    open spec fn spec_kind(&self) -> LatexModeKind {
        LatexModeKind::OuterParagraphMode
    }

    fn kind(&self) -> (r: LatexModeKind) {
        LatexModeKind::OuterParagraphMode
    }
}

impl HorizontalLatexMode for OuterParagraphMode {
    fn category_enum(&self) -> (r: HorizontalLatexModeKind) {
        HorizontalLatexModeKind::OuterParagraphMode
    }
}

/// Marker of the inner paragraph mode, the mode of ordinary text.
pub struct InnerParagraphMode;

impl LatexMode for InnerParagraphMode {
    open spec fn spec_kind(&self) -> LatexModeKind {
        LatexModeKind::InnerParagraphMode
    }

    fn kind(&self) -> (r: LatexModeKind) {
        LatexModeKind::InnerParagraphMode
    }
}

impl HorizontalLatexMode for InnerParagraphMode {
    fn category_enum(&self) -> (r: HorizontalLatexModeKind) {
        HorizontalLatexModeKind::InnerParagraphMode
    }
}

/// Marker of the left-to-right mode, the mode of `\mbox` contents.
pub struct LRMode;

impl LatexMode for LRMode {
    open spec fn spec_kind(&self) -> LatexModeKind {
        LatexModeKind::LRMode
    }

    fn kind(&self) -> (r: LatexModeKind) {
        LatexModeKind::LRMode
    }
}

impl HorizontalLatexMode for LRMode {
    fn category_enum(&self) -> (r: HorizontalLatexModeKind) {
        HorizontalLatexModeKind::LRMode
    }
}

/// Marker of the inline math mode, between `$` and `$`.
pub struct InlineMathMode;

impl LatexMode for InlineMathMode {
    open spec fn spec_kind(&self) -> LatexModeKind {
        LatexModeKind::InlineMathMode
    }

    fn kind(&self) -> (r: LatexModeKind) {
        LatexModeKind::InlineMathMode
    }
}

impl MathLatexMode for InlineMathMode {
    fn category_enum(&self) -> (r: MathLatexModeKind) {
        MathLatexModeKind::InlineMathMode
    }
}

/// Marker of the display math mode, between `$$` and `$$`.
pub struct DisplayMathMode;

impl LatexMode for DisplayMathMode {
    open spec fn spec_kind(&self) -> LatexModeKind {
        LatexModeKind::DisplayMathMode
    }

    fn kind(&self) -> (r: LatexModeKind) {
        LatexModeKind::DisplayMathMode
    }
}

impl MathLatexMode for DisplayMathMode {
    fn category_enum(&self) -> (r: MathLatexModeKind) {
        MathLatexModeKind::DisplayMathMode
    }
}

/// Marker of the vertical mode, between paragraphs.
pub struct VerticalMode;

impl LatexMode for VerticalMode {
    open spec fn spec_kind(&self) -> LatexModeKind {
        LatexModeKind::VerticalMode
    }

    fn kind(&self) -> (r: LatexModeKind) {
        LatexModeKind::VerticalMode
    }
}

impl VerticalLatexMode for VerticalMode {
    fn category_enum(&self) -> (r: VerticalLatexModeKind) {
        VerticalLatexModeKind::VerticalMode
    }
}

/// Marker of the internal vertical mode, inside a `\vbox`.
pub struct InternalVerticalMode;

impl LatexMode for InternalVerticalMode {
    open spec fn spec_kind(&self) -> LatexModeKind {
        LatexModeKind::InternalVerticalMode
    }

    fn kind(&self) -> (r: LatexModeKind) {
        LatexModeKind::InternalVerticalMode
    }
}

impl VerticalLatexMode for InternalVerticalMode {
    fn category_enum(&self) -> (r: VerticalLatexModeKind) {
        VerticalLatexModeKind::InternalVerticalMode
    }
}

} // verus!
