use vstd::prelude::*;

verus! {

/// What a homogeneous tuple stands for.
#[derive(Clone, Copy, Debug, PartialEq, Eq, Structural)]
pub enum Kind {
    /// A location in space: weight one.
    Point,
    /// A direction or a displacement: weight zero.
    Vector,
}

impl Kind {
    /// The fourth component of a tuple of this kind.
    pub open spec fn weight(self) -> int {
        match self {
            Kind::Point => 1,
            Kind::Vector => 0,
        }
    }

    /// The kind whose weight is `w`, if there is one.
    pub open spec fn with_weight(w: int) -> Option<Kind> {
        if w == 1 {
            Some(Kind::Point)
        } else if w == 0 {
            Some(Kind::Vector)
        } else {
            None
        }
    }

    /// What a cross product of tuples of kinds `a` and `b` is, if it exists.
    pub open spec fn cross_spec(a: Kind, b: Kind) -> Option<Kind> {
        if a == Kind::Vector && b == Kind::Vector {
            Some(Kind::Vector)
        } else {
            None
        }
    }

    /// The weight of a tuple of this kind.
    pub fn weight_of(self) -> (r: u8)
        ensures
            r as int == self.weight(),
    {
        match self {
            Kind::Point => 1,
            Kind::Vector => 0,
        }
    }

    /// The kind of a tuple with integer weight `w`; `None` where `w` is
    /// neither one nor zero.
    pub fn from_weight(w: i64) -> (r: Option<Kind>)
        ensures
            r == Kind::with_weight(w as int),
    {
        if w == 1 {
            Some(Kind::Point)
        } else if w == 0 {
            Some(Kind::Vector)
        } else {
            None
        }
    }

    /// Whether a tuple of this kind is a point.
    pub fn is_point(self) -> (r: bool)
        ensures
            r == (self.weight() == 1),
    {
        match self {
            Kind::Point => true,
            Kind::Vector => false,
        }
    }

    /// Whether a tuple of this kind is a vector.
    pub fn is_vector(self) -> (r: bool)
        ensures
            r == (self.weight() == 0),
    {
        match self {
            Kind::Point => false,
            Kind::Vector => true,
        }
    }

    /// The kind of `a + b`, which adds the weights: a point where one of the
    /// two is a point, a vector where both are vectors, and `None` for two
    /// points.
    pub fn of_sum(a: Kind, b: Kind) -> (r: Option<Kind>)
        ensures
            r == Kind::with_weight(a.weight() + b.weight()),
    {
        match (a, b) {
            (Kind::Point, Kind::Point) => None,
            (Kind::Point, Kind::Vector) => Some(Kind::Point),
            (Kind::Vector, Kind::Point) => Some(Kind::Point),
            (Kind::Vector, Kind::Vector) => Some(Kind::Vector),
        }
    }

    /// The kind of `a - b`, which subtracts the weights: a vector between two
    /// points or two vectors, a point for a point less a vector, and `None`
    /// for a vector less a point.
    pub fn of_difference(a: Kind, b: Kind) -> (r: Option<Kind>)
        ensures
            r == Kind::with_weight(a.weight() - b.weight()),
    {
        match (a, b) {
            (Kind::Point, Kind::Point) => Some(Kind::Vector),
            (Kind::Point, Kind::Vector) => Some(Kind::Point),
            (Kind::Vector, Kind::Point) => None,
            (Kind::Vector, Kind::Vector) => Some(Kind::Vector),
        }
    }

    /// The kind of `-a`, which negates the weight: a vector for a vector,
    /// `None` for a point.
    pub fn of_negation(a: Kind) -> (r: Option<Kind>)
        ensures
            r == Kind::with_weight(-a.weight()),
    {
        match a {
            Kind::Point => None,
            Kind::Vector => Some(Kind::Vector),
        }
    }

    /// The kind of the cross product of `a` and `b`: it is defined between
    /// two vectors only, and is a vector.
    pub fn of_cross(a: Kind, b: Kind) -> (r: Option<Kind>)
        ensures
            r == Kind::cross_spec(a, b),
            r is Some <==> (a.weight() == 0 && b.weight() == 0),
    {
        if a.is_vector() && b.is_vector() {
            Some(Kind::Vector)
        } else {
            None
        }
    }
}

/// Every tuple of a kind is either a point or a vector, never both.
pub proof fn lemma_point_or_vector(k: Kind)
    ensures
        (k.weight() == 1) != (k.weight() == 0),
        Kind::with_weight(k.weight()) == Some(k),
{
}

/// Adding a tuple and taking it away again gives back the kind one started
/// from, wherever the sum has a kind.
pub proof fn lemma_sum_then_difference(a: Kind, b: Kind)
    requires
        Kind::with_weight(a.weight() + b.weight()) is Some,
    ensures
        Kind::with_weight(Kind::with_weight(a.weight() + b.weight())->Some_0.weight() - b.weight())
            == Some(a),
{
}

/// The cross product of `b` and `a` exists exactly where that of `a` and `b`
/// does, and its negation is of the same kind.
pub proof fn lemma_cross_antisymmetric(a: Kind, b: Kind)
    ensures
        Kind::cross_spec(a, b) == Kind::cross_spec(b, a),
        Kind::cross_spec(a, b) is Some ==> Kind::with_weight(
            -Kind::cross_spec(b, a)->Some_0.weight(),
        ) == Kind::cross_spec(a, b),
{
}

} // verus!
