//! Line styles of a border and their dash patterns.
use vstd::prelude::*;

verus! {

/// A dash pattern for a border, in logical pixels.
///
/// For [`Style::Dotted`] borders, the dots are as wide as the border and a
/// `length` of zero draws round dots; only the `gap` controls their spacing.
#[derive(Debug, Clone, Copy, PartialEq)]
pub struct Dash<L> {
    /// The length of each drawn segment.
    pub length: L,
    /// The length of each gap between segments.
    pub gap: L,
}

impl<L> Dash<L> {
    /// Creates a new [`Dash`] with the given segment and gap lengths, each
    /// converted into the length type.
    pub fn new<A: Into<L>, B: Into<L>>(length: A, gap: B) -> (d: Self)
        ensures
            call_ensures(A::into, (length,), d.length),
            call_ensures(B::into, (gap,), d.gap),
    {
        Dash { length: length.into(), gap: gap.into() }
    }
}

/// The line style of a border.
#[derive(Debug, Clone, Copy, PartialEq)]
pub enum Style<L> {
    /// A continuous solid line.
    Solid,
    /// A series of square dashes separated by gaps.
    Dashed(Dash<L>),
    /// A series of round dots separated by gaps.
    Dotted(Dash<L>),
}

impl<L> Default for Style<L> {
    /// The default style is a solid line.
    fn default() -> (s: Self)
        ensures
            s == Style::<L>::Solid,
    {
        Style::Solid
    }
}

impl<L> Style<L> {
    /// The dash pattern that a style draws, and whether its segments get
    /// round caps; `None` for a solid line.
    pub open spec fn spec_pattern(self) -> Option<(Dash<L>, bool)> {
        match self {
            Style::Solid => None,
            Style::Dashed(dash) => Some((dash, false)),
            Style::Dotted(dash) => Some((dash, true)),
        }
    }

    /// Returns the dash pattern of the [`Style`] and whether its segments are
    /// drawn with round caps (as for dotted borders), or `None` for a
    /// [`Style::Solid`] border, which is drawn without segments.
    #[verifier::when_used_as_spec(spec_pattern)]
    pub fn pattern(self) -> (p: Option<(Dash<L>, bool)>)
        ensures
            p == self.spec_pattern(),
    {
        match self {
            Style::Solid => None,
            Style::Dashed(dash) => Some((dash, false)),
            Style::Dotted(dash) => Some((dash, true)),
        }
    }
}

/// A border [`Style`] resolved to concrete dash segments for a given width.
#[derive(Debug, Clone, Copy, PartialEq)]
pub struct Segments<L> {
    /// The length of each drawn segment.
    pub on: L,
    /// The length of each gap between segments.
    pub off: L,
    /// Whether the segments are drawn with round caps, as for dotted borders.
    pub rounded: bool,
}

/// A style is determined by its pattern: two styles with the same dash
/// pattern and the same caps are the same style.
pub proof fn lemma_pattern_determines_style<L>(s: Style<L>, t: Style<L>)
    ensures
        s.pattern() == t.pattern() ==> s == t,
        s.pattern() is None <==> s is Solid,
{
}

} // verus!
