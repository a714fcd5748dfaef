//! Diagnostic and human-facing rendering of an `Outcome`.
//!
//! The canonical diagnostic form prints only the variant's name, qualified by
//! the type's name, never the payload. The human-facing form prints the bare
//! variant name and additionally applies a fixed color association per
//! variant on the terminal; that coloring is purely cosmetic and affects
//! neither equality, ordering, nor any control-flow decision.

use crate::outcome::Outcome;
use vstd::prelude::*;

verus! {

/// The fixed, cosmetic color association of a variant: a color
/// conventionally read as positive status for `Success`, as an error for
/// `Failure`, and as caution for `Forward`.
#[derive(Clone, Copy, PartialEq, Eq, Structural)]
pub enum VariantColor {
    /// The color of a `Success`.
    Green,
    /// The color of a `Failure`.
    Red,
    /// The color of a `Forward`.
    Yellow,
}

impl<S, E, F> Outcome<S, E, F> {
    /// The active variant's bare name.
    pub open spec fn variant_name(self) -> Seq<char> {
        match self {
            Outcome::Success(_) => "Success"@,
            Outcome::Failure(_) => "Failure"@,
            Outcome::Forward(_) => "Forward"@,
        }
    }

    /// The active variant's name, qualified by the type's name: the
    /// canonical diagnostic form, which never renders the payload.
    pub open spec fn debug_name(self) -> Seq<char> {
        match self {
            Outcome::Success(_) => "Outcome::Success"@,
            Outcome::Failure(_) => "Outcome::Failure"@,
            Outcome::Forward(_) => "Outcome::Forward"@,
        }
    }

    /// The active variant's color.
    pub open spec fn variant_color(self) -> VariantColor {
        match self {
            Outcome::Success(_) => VariantColor::Green,
            Outcome::Failure(_) => VariantColor::Red,
            Outcome::Forward(_) => VariantColor::Yellow,
        }
    }

    /// The color and name that the human-facing rendering uses.
    fn formatting(&self) -> (r: (VariantColor, &'static str))
        ensures
            r.0 == self.variant_color(),
            r.1@ == self.variant_name(),
    {
        match *self {
            Outcome::Success(_) => (VariantColor::Green, "Success"),
            Outcome::Failure(_) => (VariantColor::Red, "Failure"),
            Outcome::Forward(_) => (VariantColor::Yellow, "Forward"),
        }
    }

    /// The diagnostic rendering: `Outcome::` followed by the variant's name,
    /// without the payload.
    pub fn debug_render(&self) -> (r: &'static str)
        ensures
            r@ == self.debug_name(),
    {
        match *self {
            Outcome::Success(_) => "Outcome::Success",
            Outcome::Failure(_) => "Outcome::Failure",
            Outcome::Forward(_) => "Outcome::Forward",
        }
    }

    /// The human-facing rendering: the variant's name, shown on the terminal
    /// in the variant's color. The characters of the result are exactly the
    /// name; the coloring is a side effect on the terminal alone.
    pub fn display_render(&self) -> (r: String)
        ensures
            r@ == self.variant_name(),
    {
        let (color, name) = self.formatting();
        paint(color, name)
    }
}

/// Relies on term_painter's `ToStyle::paint` and the `Display` of the
/// `Painted` value it returns: rendering a painted value applies the style to
/// the terminal as a side effect and writes exactly the wrapped text into the
/// formatted result.
#[verifier::external_body]
fn paint(color: VariantColor, text: &str) -> (r: String)
    ensures
        r@ == text@,
{
    let c = match color {
        VariantColor::Green => term_painter::Color::Green,
        VariantColor::Red => term_painter::Color::Red,
        VariantColor::Yellow => term_painter::Color::Yellow,
    };
    format!("{}", term_painter::ToStyle::paint(&c, text))
}

} // verus!
