use vstd::prelude::*;

verus! {

/// The fields of an access point that a reader of an index looks at.
pub struct PointView {
    /// Offset in the decompressed data (gztool's `out`).
    pub decompressed_index: u64,
    /// Offset in the compressed data (gztool's `in`).
    pub compressed_index: u64,
    /// Number of bits of the byte before `compressed_index` that belong to
    /// the point, if any.
    pub bits: u32,
    /// Where the point's window starts in the index file.
    pub window_beginning: u64,
    /// Size of the point's window.
    pub window_size: u32,
}

/// One access point of a gzip index.
#[derive(Debug, Clone, Copy, PartialEq, Eq, Structural)]
pub struct Point {
    decompressed_index: u64,
    compressed_index: u64,
    bits: u32,
    window_beginning: u64,
    window_size: u32,
}

impl View for Point {
    type V = PointView;

    closed spec fn view(&self) -> PointView {
        PointView {
            decompressed_index: self.decompressed_index,
            compressed_index: self.compressed_index,
            bits: self.bits,
            window_beginning: self.window_beginning,
            window_size: self.window_size,
        }
    }
}

impl Point {
    /// The point with the given fields.
    pub fn new(
        decompressed_index: u64,
        compressed_index: u64,
        bits: u32,
        window_beginning: u64,
        window_size: u32,
    ) -> (p: Self)
        ensures
            p@ == (PointView {
                decompressed_index,
                compressed_index,
                bits,
                window_beginning,
                window_size,
            }),
    {
        Point { decompressed_index, compressed_index, bits, window_beginning, window_size }
    }

    pub fn decompressed_index(&self) -> (r: u64)
        ensures
            r == self@.decompressed_index,
    {
        self.decompressed_index
    }

    pub fn compressed_index(&self) -> (r: u64)
        ensures
            r == self@.compressed_index,
    {
        self.compressed_index
    }

    pub fn bits(&self) -> (r: u32)
        ensures
            r == self@.bits,
    {
        self.bits
    }

    pub fn window_beginning(&self) -> (r: u64)
        ensures
            r == self@.window_beginning,
    {
        self.window_beginning
    }

    pub fn window_size(&self) -> (r: u32)
        ensures
            r == self@.window_size,
    {
        self.window_size
    }
}

/// Walks the access points of an index in order.
pub struct PointIter {
    points: Vec<Point>,
    position: usize,
}

impl PointIter {
    #[verifier::type_invariant]
    closed spec fn position_in_bounds(self) -> bool {
        self.position <= self.points.len()
    }
}

impl View for PointIter {
    /// The points not yet handed out, in order.
    type V = Seq<Point>;

    closed spec fn view(&self) -> Seq<Point> {
        self.points@.skip(self.position as int)
    }
}

impl PointIter {
    /// Hands out the next point, or `None` once every point was handed out.
    pub fn next(&mut self) -> (r: Option<Point>)
        ensures
            old(self)@.len() == 0 ==> r is None && final(self)@ == old(self)@,
            old(self)@.len() > 0 ==> r == Some(old(self)@[0]) && final(self)@
                == old(self)@.drop_first(),
    {
        proof {
            use_type_invariant(&*self);
        }
        if self.position < self.points.len() {
            let p = self.points[self.position];
            self.position = self.position + 1;
            assert(self.points@.skip(self.position as int) =~= old(self)@.drop_first());
            Some(p)
        } else {
            None
        }
    }

    /// The points not yet handed out, in order.
    pub fn collect_points(self) -> (v: Vec<Point>)
        ensures
            v@ == self@,
    {
        proof {
            use_type_invariant(&self);
        }
        let mut v: Vec<Point> = Vec::new();
        let mut i: usize = self.position;
        while i < self.points.len()
            invariant
                self.position <= i <= self.points.len(),
                v@ == self.points@.subrange(self.position as int, i as int),
            decreases self.points.len() - i,
        {
            v.push(self.points[i]);
            i = i + 1;
        }
        v
    }
}

/// A gzip index as a reader sees it: its list of access points, or nothing
/// where gztool handed back no index.
pub struct Access {
    list: Option<Vec<Point>>,
}

impl View for Access {
    type V = Option<Seq<Point>>;

    closed spec fn view(&self) -> Option<Seq<Point>> {
        match self.list {
            Some(v) => Some(v@),
            None => None,
        }
    }
}

impl Access {
    /// The index with the given list of points (`None`: no index).
    pub fn new(list: Option<Vec<Point>>) -> (a: Self)
        ensures
            match list {
                Some(v) => a@ == Some(v@),
                None => a@ is None,
            },
    {
        Access { list }
    }

    /// A walk over the index's points, from the first; `None` where there
    /// is no index.
    pub fn list_iter(&self) -> (r: Option<PointIter>)
        ensures
            match self@ {
                Some(s) => r is Some && r->0@ == s,
                None => r is None,
            },
    {
        match &self.list {
            None => None,
            Some(list) => {
                let mut points: Vec<Point> = Vec::new();
                let mut i: usize = 0;
                while i < list.len()
                    invariant
                        i <= list.len(),
                        points@ == list@.subrange(0, i as int),
                    decreases list.len() - i,
                {
                    points.push(list[i]);
                    i = i + 1;
                }
                let it = PointIter { points, position: 0 };
                assert(it@ =~= list@);
                Some(it)
            },
        }
    }
}

} // verus!
