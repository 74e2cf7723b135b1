use vstd::prelude::*;

verus! {

/// Number of plane pointers and strides that a frame holds.
pub const NUM_PLANES: usize = 8;

/// The plane addresses and strides (line sizes) of a frame.
#[derive(Debug)]
pub struct PlaneTable {
    data: Vec<usize>,
    linesize: Vec<i32>,
}

impl PlaneTable {
    pub closed spec fn data_spec(&self) -> Seq<usize> {
        self.data@
    }

    pub closed spec fn linesize_spec(&self) -> Seq<i32> {
        self.linesize@
    }

    /// One address and one stride per plane.
    pub open spec fn wf(&self) -> bool {
        self.data_spec().len() == NUM_PLANES && self.linesize_spec().len() == NUM_PLANES
    }

    /// Builds a table from a frame's plane addresses and strides; `None`
    /// unless there is one of each per plane.
    pub fn from_parts(data: Vec<usize>, linesize: Vec<i32>) -> (r: Option<PlaneTable>)
        ensures
            r is Some <==> data@.len() == NUM_PLANES && linesize@.len() == NUM_PLANES,
            r matches Some(t) ==> t.wf() && t.data_spec() == data@ && t.linesize_spec()
                == linesize@,
    {
        if data.len() == NUM_PLANES && linesize.len() == NUM_PLANES {
            Some(PlaneTable { data, linesize })
        } else {
            None
        }
    }

    /// The plane addresses.
    pub fn data(&self) -> (r: &Vec<usize>)
        ensures
            r@ == self.data_spec(),
    {
        &self.data
    }

    /// The plane strides.
    pub fn linesize(&self) -> (r: &Vec<i32>)
        ensures
            r@ == self.linesize_spec(),
    {
        &self.linesize
    }

    /// Binds one packed buffer at `addr` as the first plane with stride
    /// `stride`, and clears the second and third planes. The other planes
    /// are left as they are.
    pub fn assign_single_plane(&mut self, addr: usize, stride: i32)
        requires
            old(self).wf(),
        ensures
            final(self).wf(),
            final(self).data_spec() == old(self).data_spec().update(0, addr).update(1, 0usize).update(
                2,
                0usize,
            ),
            final(self).linesize_spec() == old(self).linesize_spec().update(0, stride).update(
                1,
                0i32,
            ).update(2, 0i32),
    {
        self.linesize.set(0, stride);
        self.linesize.set(1, 0);
        self.linesize.set(2, 0);
        self.data.set(0, addr);
        self.data.set(1, 0);
        self.data.set(2, 0);
    }

    /// Where the view of `len` bytes of plane `index` starts, and its length.
    pub fn plane_span(&self, index: usize, len: usize) -> (r: (usize, usize))
        requires
            self.wf(),
            index < NUM_PLANES,
        ensures
            r == (self.data_spec()[index as int], len),
    {
        (self.data[index], len)
    }
}

} // verus!
