use vstd::prelude::*;
use core::fmt::Debug;
use core::ops::Add;
use vstd::std_specs::cmp::PartialEqSpec;
use vstd::std_specs::ops::AddSpec;

use crate::math::{Rect, Vec2};

verus! {

/// The points of a path, with the cursor where the next line starts, the
/// start of the current subpath, and how many segments an arc is drawn with.
#[derive(Debug, Clone)]
pub struct Path2D<P> {
    pub points: Vec<P>,
    closed: bool,
    cursor: P,
    start: Option<P>,
    segment_count: u8,
}

impl<P> Path2D<P> {
    /// The points of the path, in order.
    pub closed spec fn points_spec(&self) -> Seq<P> {
        self.points@
    }

    /// Whether the current subpath was closed.
    pub closed spec fn is_closed(&self) -> bool {
        self.closed
    }

    /// Where the next line starts.
    pub closed spec fn cursor(&self) -> P {
        self.cursor
    }

    /// The start of the current subpath, if one was begun.
    pub closed spec fn start(&self) -> Option<P> {
        self.start
    }

    /// How many segments an arc is drawn with.
    pub closed spec fn segments(&self) -> u8 {
        self.segment_count
    }
}

impl<P: Default> Default for Path2D<P> {
    /// No point, no subpath, arcs of 32 segments.
    fn default() -> (r: Self)
        ensures
            r.points_spec().len() == 0,
            !r.is_closed(),
            call_ensures(P::default, (), r.cursor()),
            r.start() is None,
            r.segments() == 32,
    {
        Path2D { points: Vec::new(), segment_count: 32, closed: false, cursor: P::default(), start: None }
    }
}

impl<P: Default> Path2D<P> {
    pub fn new() -> (r: Self)
        ensures
            r.points_spec().len() == 0,
            !r.is_closed(),
            call_ensures(P::default, (), r.cursor()),
            r.start() is None,
            r.segments() == 32,
    {
        Self::default()
    }
}

impl<P> Path2D<P> {
    pub fn is_empty(&self) -> (r: bool)
        ensures
            r == (self.points_spec().len() == 0),
    {
        self.points.len() == 0
    }

    pub fn segment_count(&self) -> (r: u8)
        ensures
            r == self.segments(),
    {
        self.segment_count
    }

    pub fn set_segment_count(&mut self, count: u8)
        ensures
            final(self).segments() == count,
            final(self).points_spec() == old(self).points_spec(),
            final(self).is_closed() == old(self).is_closed(),
            final(self).cursor() == old(self).cursor(),
            final(self).start() == old(self).start(),
    {
        self.segment_count = count;
    }

    /// Drops the points and the subpath; the path is open again.
    pub fn clear(&mut self)
        ensures
            final(self).points_spec().len() == 0,
            final(self).start() is None,
            !final(self).is_closed(),
            final(self).cursor() == old(self).cursor(),
            final(self).segments() == old(self).segments(),
    {
        self.points.clear();
        self.start = None;
        self.closed = false;
    }

    /// Marks the current subpath as closed.
    pub fn close(&mut self)
        ensures
            final(self).is_closed(),
            final(self).points_spec() == old(self).points_spec(),
            final(self).cursor() == old(self).cursor(),
            final(self).start() == old(self).start(),
            final(self).segments() == old(self).segments(),
    {
        self.closed = true;
    }
}

impl<P: Copy> Path2D<P> {
    /// Adds `points` after the path's own; the last point of the path
    /// becomes the cursor (which stays where it was if the path is empty).
    pub fn extend_points(&mut self, points: Vec<P>)
        ensures
            final(self).points_spec() == old(self).points_spec() + points@,
            final(self).points_spec().len() > 0 ==> final(self).cursor() == final(self).points_spec().last(),
            final(self).points_spec().len() == 0 ==> final(self).cursor() == old(self).cursor(),
            final(self).start() == old(self).start(),
            final(self).is_closed() == old(self).is_closed(),
            final(self).segments() == old(self).segments(),
    {
        let mut points = points;
        self.points.append(&mut points);
        let n = self.points.len();
        if n > 0 {
            self.cursor = self.points[n - 1];
        }
    }

    /// Moves the cursor to `new_pos` without drawing, and begins a subpath there.
    pub fn move_to(&mut self, new_pos: P)
        ensures
            final(self).cursor() == new_pos,
            final(self).start() == Some(new_pos),
            final(self).points_spec() == old(self).points_spec(),
            final(self).is_closed() == old(self).is_closed(),
            final(self).segments() == old(self).segments(),
    {
        self.cursor = new_pos;
        self.start = Some(new_pos);
    }
}

/// The points after a line to `to`: when the cursor stands at the start of
/// the subpath, the line's first point is added before `to`.
pub open spec fn line_to_points<P: PartialEq>(points: Seq<P>, cursor: P, start: Option<P>, to: P) -> Seq<P> {
    match start {
        Some(s) if cursor.eq_spec(&s) => points.push(cursor).push(to),
        _ => points.push(to),
    }
}

impl<P: Copy + PartialEq> Path2D<P> {
    /// Draws a straight line from the cursor to `to`, which becomes the cursor.
    pub fn line_to(&mut self, to: P)
        ensures
            final(self).cursor() == to,
            final(self).start() == old(self).start(),
            final(self).is_closed() == old(self).is_closed(),
            final(self).segments() == old(self).segments(),
            final(self).points_spec() == old(self).points_spec().push(old(self).cursor()).push(to)
                || final(self).points_spec() == old(self).points_spec().push(to),
            old(self).start() is None ==> final(self).points_spec() == old(self).points_spec().push(to),
            P::obeys_eq_spec() ==> final(self).points_spec() == line_to_points(
                old(self).points_spec(),
                old(self).cursor(),
                old(self).start(),
                to,
            ),
    {
        match self.start {
            Some(start) => {
                if self.cursor == start {
                    self.points.push(self.cursor);
                }
            },
            None => {},
        }
        self.points.push(to);
        self.cursor = to;
    }
}

impl<T: Debug + Copy + Default + Add<T, Output = T>> Path2D<Vec2<T>> {
    /// Adds the corners of `rect`, clockwise from the top left (top left, top
    /// right, bottom right, bottom left); the last one becomes the cursor.
    pub fn rect(&mut self, rect: &Rect<T>)
        requires
            rect.x.add_req(rect.width),
            rect.y.add_req(rect.height),
        ensures
            final(self).points_spec().len() == old(self).points_spec().len() + 4,
            forall|i: int| 0 <= i < old(self).points_spec().len() ==> #[trigger] final(self).points_spec()[i] == old(self).points_spec()[i],
            final(self).points_spec()[old(self).points_spec().len() as int] == (Vec2 { x: rect.x, y: rect.y }),
            final(self).points_spec()[old(self).points_spec().len() + 1int].y == rect.y,
            final(self).points_spec()[old(self).points_spec().len() + 3int].x == rect.x,
            T::obeys_add_spec() ==> {
                &&& final(self).points_spec()[old(self).points_spec().len() + 1int].x == rect.x.add_spec(rect.width)
                &&& final(self).points_spec()[old(self).points_spec().len() + 2int] == (Vec2 {
                    x: rect.x.add_spec(rect.width),
                    y: rect.y.add_spec(rect.height),
                })
                &&& final(self).points_spec()[old(self).points_spec().len() + 3int].y == rect.y.add_spec(rect.height)
            },
            final(self).cursor() == final(self).points_spec()[old(self).points_spec().len() + 3int],
            final(self).start() == old(self).start(),
            final(self).is_closed() == old(self).is_closed(),
            final(self).segments() == old(self).segments(),
    {
        self.points.reserve(4);
        self.points.push(rect.top_left());
        self.points.push(rect.top_right());
        self.points.push(rect.bottom_right());
        self.points.push(rect.bottom_left());
        self.cursor = self.points[self.points.len() - 1];
    }
}

} // verus!
