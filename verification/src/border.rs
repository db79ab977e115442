//! Draw lines around containers.
use vstd::prelude::*;
use crate::radius::Radius;
use crate::style::{Dash, Style};

verus! {

/// A border.
#[derive(Debug, Clone, Copy, PartialEq)]
pub struct Border<C, L> {
    /// The color of the border.
    pub color: C,
    /// The width of the border.
    pub width: L,
    /// The [`Radius`] of the border.
    pub radius: Radius<L>,
    /// The line [`Style`] of the border.
    pub style: Style<L>,
}

impl<C: Default, L: Copy + Default> Default for Border<C, L> {
    /// The default border: the default color, a solid line, and the scalar's
    /// default value (zero for numbers) as width and at every corner.
    fn default() -> (b: Self)
        ensures
            b.is_plain(),
            call_ensures(C::default, (), b.color),
            call_ensures(L::default, (), b.width),
    {
        let zero = L::default();
        Border {
            color: C::default(),
            width: zero,
            radius: Radius::new::<L>(zero),
            style: Style::Solid,
        }
    }
}

impl<C, L: Copy> Border<C, L> {
    /// A solid border whose width and corner radii all hold one value.
    pub open spec fn is_plain(self) -> bool {
        &&& self.style == Style::<L>::Solid
        &&& self.radius == Radius::spec_new(self.width)
    }

    /// Sets the color of the [`Border`].
    pub open spec fn spec_color(self, color: C) -> Self {
        Border { color: color, ..self }
    }

    /// Sets the [`Radius`] of the [`Border`].
    pub open spec fn spec_rounded(self, radius: Radius<L>) -> Self {
        Border { radius: radius, ..self }
    }

    /// Sets the width of the [`Border`].
    pub open spec fn spec_width(self, width: L) -> Self {
        Border { width: width, ..self }
    }

    /// Sets the line [`Style`] of the [`Border`].
    pub open spec fn spec_style(self, style: Style<L>) -> Self {
        Border { style: style, ..self }
    }

    /// Sets the color of the [`Border`].
    /// The argument is converted into the field's type.
    pub fn color<T: Into<C>>(self, color: T) -> (b: Self)
        ensures
            call_ensures(T::into, (color,), b.color),
            b == self.spec_color(b.color),
    {
        Border { color: color.into(), ..self }
    }

    /// Sets the [`Radius`] of the [`Border`].
    /// The argument is converted into the field's type.
    pub fn rounded<T: Into<Radius<L>>>(self, radius: T) -> (b: Self)
        ensures
            call_ensures(T::into, (radius,), b.radius),
            b == self.spec_rounded(b.radius),
    {
        Border { radius: radius.into(), ..self }
    }

    /// Sets the width of the [`Border`].
    /// The argument is converted into the field's type.
    pub fn width<T: Into<L>>(self, width: T) -> (b: Self)
        ensures
            call_ensures(T::into, (width,), b.width),
            b == self.spec_width(b.width),
    {
        Border { width: width.into(), ..self }
    }

    /// Sets the line [`Style`] of the [`Border`].
    pub fn style(self, style: Style<L>) -> (b: Self)
        ensures
            b == self.spec_style(style),
    {
        Border { style, ..self }
    }

    /// Draws the [`Border`] with the given dashed [`Dash`] pattern.
    pub fn dashes(self, dash: Dash<L>) -> (b: Self)
        ensures
            b == self.spec_style(Style::Dashed(dash)),
    {
        self.style(Style::Dashed(dash))
    }

    /// Draws the [`Border`] with the given dotted [`Dash`] pattern.
    pub fn dots(self, dash: Dash<L>) -> (b: Self)
        ensures
            b == self.spec_style(Style::Dotted(dash)),
    {
        self.style(Style::Dotted(dash))
    }
}

/// Creates a new [`Border`] with the given [`Radius`]: the default border,
/// rounded.
pub fn rounded<C: Default, L: Copy + Default, T: Into<Radius<L>>>(radius: T) -> (b: Border<C, L>)
    ensures
        call_ensures(T::into, (radius,), b.radius),
        b.style == Style::<L>::Solid,
        call_ensures(C::default, (), b.color),
        call_ensures(L::default, (), b.width),
{
    let d = Border::default();
    d.rounded(radius)
}

/// Creates a new [`Border`] with the given color: the default border,
/// recolored.
pub fn color<C: Default, L: Copy + Default, T: Into<C>>(value: T) -> (b: Border<C, L>)
    ensures
        call_ensures(T::into, (value,), b.color),
        b.style == Style::<L>::Solid,
        b.radius == Radius::spec_new(b.width),
        call_ensures(L::default, (), b.width),
{
    let d = Border::default();
    d.color(value)
}

/// Creates a new [`Border`] with the given `width`: the default border,
/// widened.
pub fn width<C: Default, L: Copy + Default, T: Into<L>>(value: T) -> (b: Border<C, L>)
    ensures
        call_ensures(T::into, (value,), b.width),
        b.style == Style::<L>::Solid,
        b.radius.is_uniform(),
        call_ensures(L::default, (), b.radius.top_left),
        call_ensures(C::default, (), b.color),
{
    let d = Border::default();
    d.width(value)
}

/// The last value given to a field of a border is the value it holds.
pub proof fn lemma_last_write_wins<C, L: Copy>(
    b: Border<C, L>,
    c1: C,
    c2: C,
    w1: L,
    w2: L,
    r1: Radius<L>,
    r2: Radius<L>,
    s1: Style<L>,
    s2: Style<L>,
)
    ensures
        b.spec_color(c1).spec_color(c2) == b.spec_color(c2),
        b.spec_width(w1).spec_width(w2) == b.spec_width(w2),
        b.spec_rounded(r1).spec_rounded(r2) == b.spec_rounded(r2),
        b.spec_style(s1).spec_style(s2) == b.spec_style(s2),
{
}

/// Setting two different fields of a border gives the same border in either
/// order.
pub proof fn lemma_distinct_fields_commute<C, L: Copy>(
    b: Border<C, L>,
    c: C,
    w: L,
    r: Radius<L>,
    s: Style<L>,
)
    ensures
        b.spec_color(c).spec_width(w) == b.spec_width(w).spec_color(c),
        b.spec_color(c).spec_rounded(r) == b.spec_rounded(r).spec_color(c),
        b.spec_color(c).spec_style(s) == b.spec_style(s).spec_color(c),
        b.spec_width(w).spec_rounded(r) == b.spec_rounded(r).spec_width(w),
        b.spec_width(w).spec_style(s) == b.spec_style(s).spec_width(w),
        b.spec_rounded(r).spec_style(s) == b.spec_style(s).spec_rounded(r),
{
}

/// A border drawn with dashes has square-capped segments of that dash
/// pattern, and one drawn with dots has round-capped segments of it; a plain
/// border has no segments.
pub proof fn lemma_segment_caps<C, L: Copy>(b: Border<C, L>, d: Dash<L>)
    ensures
        b.spec_style(Style::Dashed(d)).style.pattern() == Some((d, false)),
        b.spec_style(Style::Dotted(d)).style.pattern() == Some((d, true)),
        b.is_plain() ==> b.style.pattern() is None,
{
}

} // verus!
