use vstd::prelude::*;

verus! {

/// Pixel dimensions of the drawable area; both are always positive.
#[derive(Clone, Copy, Debug, PartialEq, Eq)]
pub struct Viewport {
    width: i32,
    height: i32,
}

impl View for Viewport {
    /// (width, height) in pixels.
    type V = (int, int);

    closed spec fn view(&self) -> (int, int) {
        (self.width as int, self.height as int)
    }
}

impl Viewport {
    #[verifier::type_invariant]
    spec fn inv(&self) -> bool {
        self.width > 0 && self.height > 0
    }

    /// A viewport of the given size, or `None` when a dimension is zero or negative.
    pub fn new(width: i32, height: i32) -> (r: Option<Viewport>)
        ensures
            r is Some <==> (width > 0 && height > 0),
            r matches Some(v) ==> v@ == (width as int, height as int),
    {
        if width > 0 && height > 0 {
            Some(Viewport { width, height })
        } else {
            None
        }
    }

    pub fn width(&self) -> (r: i32)
        ensures
            r as int == self@.0,
            r > 0,
    {
        proof {
            use_type_invariant(self);
        }
        self.width
    }

    pub fn height(&self) -> (r: i32)
        ensures
            r as int == self@.1,
            r > 0,
    {
        proof {
            use_type_invariant(self);
        }
        self.height
    }

    /// The pixel the cursor is put back on after each motion: half of each
    /// dimension, rounded down.
    pub fn center(&self) -> (r: (i32, i32))
        ensures
            r.0 as int == self@.0 / 2,
            r.1 as int == self@.1 / 2,
    {
        proof {
            use_type_invariant(self);
        }
        (self.width / 2, self.height / 2)
    }

    /// How far the cursor at (x, y) lies from the center, in pixels.
    pub fn offset_from_center(&self, x: i32, y: i32) -> (r: (i64, i64))
        ensures
            r.0 == x as int - self@.0 / 2,
            r.1 == y as int - self@.1 / 2,
    {
        let (cx, cy) = self.center();
        (x as i64 - cx as i64, y as i64 - cy as i64)
    }
}

} // verus!
