use crate::alg::scalar::{two, Scalar};
use vstd::prelude::*;

verus! {

/// An axis-parallel rectangle, given by its lower left corner and its width
/// and height.
pub struct Rectangle<S> {
    pub down_left_corner: (S, S),
    pub dimensions: (S, S),
}

impl<S: Copy> Copy for Rectangle<S> {

}

impl<S: Copy> Clone for Rectangle<S> {
    fn clone(&self) -> (copy: Self)
        ensures
            copy == *self,
    {
        *self
    }
}

impl<S: Scalar> Rectangle<S> {
    /// The point `(x, y)` lies in the rectangle: on or past the lower left
    /// corner, and strictly before the corner plus the dimensions.
    pub open spec fn holds(self, x: S, y: S) -> bool {
        &&& self.down_left_corner.0.at_most(x)
        &&& x.below(self.down_left_corner.0.sum(self.dimensions.0))
        &&& self.down_left_corner.1.at_most(y)
        &&& y.below(self.down_left_corner.1.sum(self.dimensions.1))
    }

    /// The rectangle of the given size whose centre is the origin.
    pub open spec fn centred(width: S, height: S) -> Self {
        Rectangle {
            dimensions: (width, height),
            down_left_corner: (
                width.negation().quotient(two()),
                height.negation().quotient(two()),
            ),
        }
    }

    pub fn get_height(&self) -> (height: S)
        ensures
            height == self.dimensions.1,
    {
        self.dimensions.1
    }

    pub fn get_width(&self) -> (width: S)
        ensures
            width == self.dimensions.0,
    {
        self.dimensions.0
    }

    /// Whether the point `(x, y)` lies in the rectangle. The lower and left
    /// edges belong to it, the upper and right edges do not.
    pub fn contains(&self, x: S, y: S) -> (inside: bool)
        ensures
            inside == self.holds(x, y),
    {
        self.down_left_corner.0.le(x) && x.lt(self.down_left_corner.0.add(self.dimensions.0))
            && self.down_left_corner.1.le(y) && y.lt(
            self.down_left_corner.1.add(self.dimensions.1),
        )
    }
}

/// Something on the screen that can be picked: its drawable `vao`, the
/// drawable of its outline `frame`, the rectangle it covers, and what it is.
/// `V` is the type of the drawables, which this module only carries along.
pub struct Element<S, V> {
    pub vao: V,
    pub frame: V,
    pub rect: Rectangle<S>,
    pub hover: bool,
    pub kind: ElementKind<S, V>,
}

pub enum ElementKind<S, V> {
    PLANE(Plane<S, V>),
    AREA(Area<S, V>),
    POINT(Point<S>),
}

/// A plane holds areas.
pub struct Plane<S, V> {
    pub areas: Vec<Element<S, V>>,
}

/// An area holds points.
pub struct Area<S, V> {
    pub points: Vec<Element<S, V>>,
}

/// A point holds a value.
pub struct Point<S> {
    pub value: S,
}

/// The rectangle of `children[i]` holds `(x, y)`, and no rectangle before it
/// does.
pub open spec fn is_first_holding<S: Scalar, V>(
    children: Seq<Element<S, V>>,
    x: S,
    y: S,
    i: int,
) -> bool {
    &&& 0 <= i < children.len()
    &&& children[i].rect.holds(x, y)
    &&& forall|n: int| 0 <= n < i ==> !(#[trigger] children[n]).rect.holds(x, y)
}

/// No rectangle of `children` holds `(x, y)`.
pub open spec fn none_holds<S: Scalar, V>(children: Seq<Element<S, V>>, x: S, y: S) -> bool {
    forall|n: int| 0 <= n < children.len() ==> !(#[trigger] children[n]).rect.holds(x, y)
}

/// `found` is the first of `children` whose rectangle holds `(x, y)`, and
/// nothing where none does.
pub open spec fn is_first_of<S: Scalar, V>(
    children: Seq<Element<S, V>>,
    x: S,
    y: S,
    found: Option<&Element<S, V>>,
) -> bool {
    match found {
        Some(e) => exists|i: int| is_first_holding(children, x, y, i) && *e == children[i],
        None => none_holds(children, x, y),
    }
}

impl<S: Scalar, V> Element<S, V> {
    /// The elements directly inside this one: the areas of a plane, the
    /// points of an area, none for a point.
    pub open spec fn children(self) -> Seq<Element<S, V>> {
        match self.kind {
            ElementKind::PLANE(plane) => plane.areas@,
            ElementKind::AREA(area) => area.points@,
            ElementKind::POINT(_) => Seq::empty(),
        }
    }

    /// What a pick at `(x, y)` finds in this element: nothing outside its
    /// rectangle; else the first of its children whose rectangle holds the
    /// point; else the element itself.
    pub open spec fn picks(self, x: S, y: S, found: Option<&Element<S, V>>) -> bool {
        if !self.rect.holds(x, y) {
            found is None
        } else {
            found matches Some(e) && ({
                ||| exists|i: int|
                    is_first_holding(self.children(), x, y, i) && *e == self.children()[i]
                ||| none_holds(self.children(), x, y) && *e == self
            })
        }
    }

    /// A plane without areas, `width` by `height` and centred on the origin.
    pub fn plane(vao: V, frame: V, width: S, height: S) -> (element: Self)
        ensures
            element.vao == vao,
            element.frame == frame,
            element.rect == Rectangle::centred(width, height),
            !element.hover,
            element.kind matches ElementKind::PLANE(plane) && plane.areas@.len() == 0,
    {
        let two = S::from_i32(2);
        Element {
            vao,
            frame,
            rect: Rectangle {
                dimensions: (width, height),
                down_left_corner: (width.neg().div(two), height.neg().div(two)),
            },
            hover: false,
            kind: ElementKind::PLANE(Plane { areas: Vec::new() }),
        }
    }

    /// An area, `width` by `height` and centred on the origin. It is made as
    /// a plane is, as a plane without areas.
    pub fn area(vao: V, frame: V, width: S, height: S) -> (element: Self)
        ensures
            element.vao == vao,
            element.frame == frame,
            element.rect == Rectangle::centred(width, height),
            !element.hover,
            element.kind matches ElementKind::PLANE(plane) && plane.areas@.len() == 0,
    {
        let two = S::from_i32(2);
        Element {
            vao,
            frame,
            rect: Rectangle {
                dimensions: (width, height),
                down_left_corner: (width.neg().div(two), height.neg().div(two)),
            },
            hover: false,
            kind: ElementKind::PLANE(Plane { areas: Vec::new() }),
        }
    }

    /// The first of `children` that a pick at `(x, y)` finds something in.
    fn first_selected<'a>(children: &'a Vec<Element<S, V>>, x: S, y: S) -> (found: Option<
        &'a Element<S, V>,
    >)
        ensures
            is_first_of(children@, x, y, found),
        decreases children, 1int,
    {
        let mut i: usize = 0;
        while i < children.len()
            invariant
                i <= children.len(),
                forall|n: int| 0 <= n < i ==> !(#[trigger] children@[n]).rect.holds(x, y),
            decreases children.len() - i,
        {
            if children[i].select(x, y).is_some() {
                assert(is_first_holding(children@, x, y, i as int));
                return Some(&children[i]);
            }
            i += 1;
        }
        None
    }

    /// What a pick at `(x, y)` finds: nothing outside the element's
    /// rectangle; else the first of its children that contains the point;
    /// else the element itself.
    pub fn select(&self, x: S, y: S) -> (found: Option<&Element<S, V>>)
        ensures
            self.picks(x, y, found),
        decreases self, 0int,
    {
        if !self.rect.contains(x, y) {
            return None;
        }
        match &self.kind {
            ElementKind::PLANE(plane) => {
                match Self::first_selected(&plane.areas, x, y) {
                    Some(inside) => Some(inside),
                    None => Some(self),
                }
            },
            ElementKind::AREA(area) => {
                match Self::first_selected(&area.points, x, y) {
                    Some(inside) => Some(inside),
                    None => Some(self),
                }
            },
            ElementKind::POINT(_) => Some(self),
        }
    }
}

} // verus!
