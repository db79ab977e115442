//! The corner radii of a graphics primitive.
use vstd::prelude::*;
use vstd::std_specs::convert::FromSpec;

verus! {

/// The border radii for the corners of a graphics primitive in the order:
/// top-left, top-right, bottom-right, bottom-left.
#[derive(Debug, Clone, Copy, PartialEq)]
pub struct Radius<L> {
    /// Top left radius
    pub top_left: L,
    /// Top right radius
    pub top_right: L,
    /// Bottom right radius
    pub bottom_right: L,
    /// Bottom left radius
    pub bottom_left: L,
}

impl<L: Copy> Radius<L> {
    /// The radius with the same value at every corner.
    pub open spec fn spec_new(value: L) -> Self {
        Radius { top_left: value, top_right: value, bottom_right: value, bottom_left: value }
    }

    /// Whether all four corners hold the same value.
    pub open spec fn is_uniform(self) -> bool {
        &&& self.top_right == self.top_left
        &&& self.bottom_right == self.top_left
        &&& self.bottom_left == self.top_left
    }

    /// Creates a new [`Radius`] with the same value for each corner.
    /// The value is converted into the length type.
    pub fn new<T: Into<L>>(value: T) -> (r: Self)
        ensures
            call_ensures(T::into, (value,), r.top_left),
            r == Self::spec_new(r.top_left),
    {
        let v: L = value.into();
        Radius { top_left: v, top_right: v, bottom_right: v, bottom_left: v }
    }

    /// Sets the top left value of the [`Radius`].
    pub open spec fn spec_top_left(self, value: L) -> Self {
        Radius { top_left: value, ..self }
    }

    /// Sets the top right value of the [`Radius`].
    pub open spec fn spec_top_right(self, value: L) -> Self {
        Radius { top_right: value, ..self }
    }

    /// Sets the bottom right value of the [`Radius`].
    pub open spec fn spec_bottom_right(self, value: L) -> Self {
        Radius { bottom_right: value, ..self }
    }

    /// Sets the bottom left value of the [`Radius`].
    pub open spec fn spec_bottom_left(self, value: L) -> Self {
        Radius { bottom_left: value, ..self }
    }

    /// Sets the top left and top right values of the [`Radius`].
    pub open spec fn spec_top(self, value: L) -> Self {
        Radius { top_left: value, top_right: value, ..self }
    }

    /// Sets the bottom left and bottom right values of the [`Radius`].
    pub open spec fn spec_bottom(self, value: L) -> Self {
        Radius { bottom_left: value, bottom_right: value, ..self }
    }

    /// Sets the top left and bottom left values of the [`Radius`].
    pub open spec fn spec_left(self, value: L) -> Self {
        Radius { top_left: value, bottom_left: value, ..self }
    }

    /// Sets the top right and bottom right values of the [`Radius`].
    pub open spec fn spec_right(self, value: L) -> Self {
        Radius { top_right: value, bottom_right: value, ..self }
    }

    /// Sets the top left value of the [`Radius`].
    pub fn top_left<T: Into<L>>(self, value: T) -> (r: Self)
        ensures
            call_ensures(T::into, (value,), r.top_left),
            r == self.spec_top_left(r.top_left),
    {
        Radius { top_left: value.into(), ..self }
    }

    /// Sets the top right value of the [`Radius`].
    pub fn top_right<T: Into<L>>(self, value: T) -> (r: Self)
        ensures
            call_ensures(T::into, (value,), r.top_right),
            r == self.spec_top_right(r.top_right),
    {
        Radius { top_right: value.into(), ..self }
    }

    /// Sets the bottom right value of the [`Radius`].
    pub fn bottom_right<T: Into<L>>(self, value: T) -> (r: Self)
        ensures
            call_ensures(T::into, (value,), r.bottom_right),
            r == self.spec_bottom_right(r.bottom_right),
    {
        Radius { bottom_right: value.into(), ..self }
    }

    /// Sets the bottom left value of the [`Radius`].
    pub fn bottom_left<T: Into<L>>(self, value: T) -> (r: Self)
        ensures
            call_ensures(T::into, (value,), r.bottom_left),
            r == self.spec_bottom_left(r.bottom_left),
    {
        Radius { bottom_left: value.into(), ..self }
    }

    /// Sets the top left and top right values of the [`Radius`].
    pub fn top<T: Into<L>>(self, value: T) -> (r: Self)
        ensures
            call_ensures(T::into, (value,), r.top_left),
            r == self.spec_top(r.top_left),
    {
        let v: L = value.into();
        Radius { top_left: v, top_right: v, ..self }
    }

    /// Sets the bottom left and bottom right values of the [`Radius`].
    pub fn bottom<T: Into<L>>(self, value: T) -> (r: Self)
        ensures
            call_ensures(T::into, (value,), r.bottom_left),
            r == self.spec_bottom(r.bottom_left),
    {
        let v: L = value.into();
        Radius { bottom_left: v, bottom_right: v, ..self }
    }

    /// Sets the top left and bottom left values of the [`Radius`].
    pub fn left<T: Into<L>>(self, value: T) -> (r: Self)
        ensures
            call_ensures(T::into, (value,), r.top_left),
            r == self.spec_left(r.top_left),
    {
        let v: L = value.into();
        Radius { top_left: v, bottom_left: v, ..self }
    }

    /// Sets the top right and bottom right values of the [`Radius`].
    pub fn right<T: Into<L>>(self, value: T) -> (r: Self)
        ensures
            call_ensures(T::into, (value,), r.top_right),
            r == self.spec_right(r.top_right),
    {
        let v: L = value.into();
        Radius { top_right: v, bottom_right: v, ..self }
    }
}

impl<L: Copy + Default> Default for Radius<L> {
    /// Every corner holds the scalar's default value (zero for numbers).
    fn default() -> (r: Self)
        ensures
            r.is_uniform(),
            call_ensures(L::default, (), r.top_left),
    {
        let zero = L::default();
        Radius { top_left: zero, top_right: zero, bottom_right: zero, bottom_left: zero }
    }
}

impl<L: Copy> From<L> for Radius<L> {
    /// The radius with the same value at every corner.
    fn from(value: L) -> (r: Self) {
        Radius { top_left: value, top_right: value, bottom_right: value, bottom_left: value }
    }
}

impl<L: Copy> vstd::std_specs::convert::FromSpecImpl<L> for Radius<L> {
    open spec fn obeys_from_spec() -> bool {
        true
    }

    open spec fn from_spec(value: L) -> Self {
        Radius::spec_new(value)
    }
}

impl<L: Copy> From<Radius<L>> for [L; 4] {
    /// The radii in the order top-left, top-right, bottom-right, bottom-left.
    fn from(radi: Radius<L>) -> (a: Self) {
        [radi.top_left, radi.top_right, radi.bottom_right, radi.bottom_left]
    }
}

impl<L: Copy> vstd::std_specs::convert::FromSpecImpl<Radius<L>> for [L; 4] {
    open spec fn obeys_from_spec() -> bool {
        true
    }

    open spec fn from_spec(radi: Radius<L>) -> Self {
        [radi.top_left, radi.top_right, radi.bottom_right, radi.bottom_left]
    }
}

/// Creates a new [`Radius`] with the same value for each corner.
pub fn radius<L: Copy, T: Into<L>>(value: T) -> (r: Radius<L>)
    ensures
        call_ensures(T::into, (value,), r.top_left),
        r == Radius::spec_new(r.top_left),
{
    Radius::new(value)
}

/// Creates a new [`Radius`] with the given top left value.
/// The other corners hold the scalar's default value (zero for numbers).
pub fn top_left<L: Copy + Default, T: Into<L>>(value: T) -> (r: Radius<L>)
    ensures
        r == Radius::spec_new(r.top_right).spec_top_left(r.top_left),
        call_ensures(L::default, (), r.top_right),
        call_ensures(T::into, (value,), r.top_left),
{
    let d = Radius::default();
    d.top_left(value)
}

/// Creates a new [`Radius`] with the given top right value.
/// The other corners hold the scalar's default value (zero for numbers).
pub fn top_right<L: Copy + Default, T: Into<L>>(value: T) -> (r: Radius<L>)
    ensures
        r == Radius::spec_new(r.top_left).spec_top_right(r.top_right),
        call_ensures(L::default, (), r.top_left),
        call_ensures(T::into, (value,), r.top_right),
{
    let d = Radius::default();
    d.top_right(value)
}

/// Creates a new [`Radius`] with the given bottom right value.
/// The other corners hold the scalar's default value (zero for numbers).
pub fn bottom_right<L: Copy + Default, T: Into<L>>(value: T) -> (r: Radius<L>)
    ensures
        r == Radius::spec_new(r.top_left).spec_bottom_right(r.bottom_right),
        call_ensures(L::default, (), r.top_left),
        call_ensures(T::into, (value,), r.bottom_right),
{
    let d = Radius::default();
    d.bottom_right(value)
}

/// Creates a new [`Radius`] with the given bottom left value.
/// The other corners hold the scalar's default value (zero for numbers).
pub fn bottom_left<L: Copy + Default, T: Into<L>>(value: T) -> (r: Radius<L>)
    ensures
        r == Radius::spec_new(r.top_left).spec_bottom_left(r.bottom_left),
        call_ensures(L::default, (), r.top_left),
        call_ensures(T::into, (value,), r.bottom_left),
{
    let d = Radius::default();
    d.bottom_left(value)
}

/// Creates a new [`Radius`] with the given value as top left and top right.
/// The other corners hold the scalar's default value (zero for numbers).
pub fn top<L: Copy + Default, T: Into<L>>(value: T) -> (r: Radius<L>)
    ensures
        r == Radius::spec_new(r.bottom_left).spec_top(r.top_left),
        call_ensures(L::default, (), r.bottom_left),
        call_ensures(T::into, (value,), r.top_left),
{
    let d = Radius::default();
    d.top(value)
}

/// Creates a new [`Radius`] with the given value as bottom left and bottom right.
/// The other corners hold the scalar's default value (zero for numbers).
pub fn bottom<L: Copy + Default, T: Into<L>>(value: T) -> (r: Radius<L>)
    ensures
        r == Radius::spec_new(r.top_left).spec_bottom(r.bottom_left),
        call_ensures(L::default, (), r.top_left),
        call_ensures(T::into, (value,), r.bottom_left),
{
    let d = Radius::default();
    d.bottom(value)
}

/// Creates a new [`Radius`] with the given value as top left and bottom left.
/// The other corners hold the scalar's default value (zero for numbers).
pub fn left<L: Copy + Default, T: Into<L>>(value: T) -> (r: Radius<L>)
    ensures
        r == Radius::spec_new(r.top_right).spec_left(r.top_left),
        call_ensures(L::default, (), r.top_right),
        call_ensures(T::into, (value,), r.top_left),
{
    let d = Radius::default();
    d.left(value)
}

/// Creates a new [`Radius`] with the given value as top right and bottom right.
/// The other corners hold the scalar's default value (zero for numbers).
pub fn right<L: Copy + Default, T: Into<L>>(value: T) -> (r: Radius<L>)
    ensures
        r == Radius::spec_new(r.top_left).spec_right(r.top_right),
        call_ensures(L::default, (), r.top_left),
        call_ensures(T::into, (value,), r.top_right),
{
    let d = Radius::default();
    d.right(value)
}

/// Setting a pair of corners is setting each of its two corners: `top` is
/// `top_left` then `top_right`, and likewise for `bottom`, `left` and `right`.
pub proof fn lemma_pairs_set_their_corners<L: Copy>(r: Radius<L>, v: L)
    ensures
        r.spec_top(v) == r.spec_top_left(v).spec_top_right(v),
        r.spec_bottom(v) == r.spec_bottom_left(v).spec_bottom_right(v),
        r.spec_left(v) == r.spec_top_left(v).spec_bottom_left(v),
        r.spec_right(v) == r.spec_top_right(v).spec_bottom_right(v),
{
}

/// A radius with one value at every corner is any radius with that value set
/// at the top and at the bottom, or at the left and at the right.
pub proof fn lemma_new_covers_all_corners<L: Copy>(r: Radius<L>, v: L)
    ensures
        Radius::spec_new(v) == r.spec_top(v).spec_bottom(v),
        Radius::spec_new(v) == r.spec_left(v).spec_right(v),
        Radius::spec_new(v).is_uniform(),
{
}

/// The last value set at a corner is the value that the corner holds.
pub proof fn lemma_last_write_wins<L: Copy>(r: Radius<L>, a: L, b: L)
    ensures
        r.spec_top_left(a).spec_top_left(b) == r.spec_top_left(b),
        r.spec_top_right(a).spec_top_right(b) == r.spec_top_right(b),
        r.spec_bottom_right(a).spec_bottom_right(b) == r.spec_bottom_right(b),
        r.spec_bottom_left(a).spec_bottom_left(b) == r.spec_bottom_left(b),
        r.spec_top(a).spec_top(b) == r.spec_top(b),
        r.spec_bottom(a).spec_bottom(b) == r.spec_bottom(b),
        r.spec_left(a).spec_left(b) == r.spec_left(b),
        r.spec_right(a).spec_right(b) == r.spec_right(b),
{
}

/// Setting two different corners gives the same radius in either order.
pub proof fn lemma_distinct_corners_commute<L: Copy>(r: Radius<L>, a: L, b: L)
    ensures
        r.spec_top_left(a).spec_top_right(b) == r.spec_top_right(b).spec_top_left(a),
        r.spec_top_left(a).spec_bottom_right(b) == r.spec_bottom_right(b).spec_top_left(a),
        r.spec_top_left(a).spec_bottom_left(b) == r.spec_bottom_left(b).spec_top_left(a),
        r.spec_top_right(a).spec_bottom_right(b) == r.spec_bottom_right(b).spec_top_right(a),
        r.spec_top_right(a).spec_bottom_left(b) == r.spec_bottom_left(b).spec_top_right(a),
        r.spec_bottom_right(a).spec_bottom_left(b) == r.spec_bottom_left(b).spec_bottom_right(a),
        r.spec_top(a).spec_bottom(b) == r.spec_bottom(b).spec_top(a),
        r.spec_left(a).spec_right(b) == r.spec_right(b).spec_left(a),
{
}

/// Setting a corner to the value it already holds changes nothing.
pub proof fn lemma_rewrite_is_identity<L: Copy>(r: Radius<L>)
    ensures
        r.spec_top_left(r.top_left) == r,
        r.spec_top_right(r.top_right) == r,
        r.spec_bottom_right(r.bottom_right) == r,
        r.spec_bottom_left(r.bottom_left) == r,
{
}

/// The array form lists the corners in the order top-left, top-right,
/// bottom-right, bottom-left: each corner setter writes its own position of
/// that array and no other.
pub proof fn lemma_array_order<L: Copy>(r: Radius<L>, v: L)
    ensures
        <[L; 4]>::from_spec(r)@ == seq![r.top_left, r.top_right, r.bottom_right, r.bottom_left],
        <[L; 4]>::from_spec(r.spec_top_left(v))@ == <[L; 4]>::from_spec(r)@.update(0, v),
        <[L; 4]>::from_spec(r.spec_top_right(v))@ == <[L; 4]>::from_spec(r)@.update(1, v),
        <[L; 4]>::from_spec(r.spec_bottom_right(v))@ == <[L; 4]>::from_spec(r)@.update(2, v),
        <[L; 4]>::from_spec(r.spec_bottom_left(v))@ == <[L; 4]>::from_spec(r)@.update(3, v),
        <[L; 4]>::from_spec(Radius::spec_new(v))@ == seq![v, v, v, v],
{
    assert(<[L; 4]>::from_spec(r)@ =~= seq![r.top_left, r.top_right, r.bottom_right, r.bottom_left]);
    assert(<[L; 4]>::from_spec(r.spec_top_left(v))@ =~= <[L; 4]>::from_spec(r)@.update(0, v));
    assert(<[L; 4]>::from_spec(r.spec_top_right(v))@ =~= <[L; 4]>::from_spec(r)@.update(1, v));
    assert(<[L; 4]>::from_spec(r.spec_bottom_right(v))@ =~= <[L; 4]>::from_spec(r)@.update(2, v));
    assert(<[L; 4]>::from_spec(r.spec_bottom_left(v))@ =~= <[L; 4]>::from_spec(r)@.update(3, v));
    assert(<[L; 4]>::from_spec(Radius::spec_new(v))@ =~= seq![v, v, v, v]);
}

} // verus!
