//! LaTeX flavors: the engines that the output is meant for, where they
//! differ in what they can render.
use vstd::prelude::*;

verus! {

/// The flavors whose differences the library knows: AMS-LaTeX, where every
/// label can be referred to and hyperlinks are available, and MathJax, which
/// has neither sub-equation labels nor hyperlinks.
#[derive(Clone, Copy, Debug, PartialEq, Eq, Structural)]
pub enum SupportedFlavor {
    AmsLatex,
    MathJax,
}

} // verus!
