//! The 256-bin histogram buffer that the backend fills in place.
use vstd::prelude::*;

verus! {

/// Number of intensity levels, one bin each.
pub const HISTOGRAM_BINS: usize = 256;

/// Counts per intensity level, written by the backend.
pub struct CudaHistogramData {
    pub data: Vec<u32>,
}

impl CudaHistogramData {
    /// One bin per intensity level.
    pub open spec fn wf(&self) -> bool {
        self.data@.len() == HISTOGRAM_BINS
    }

    /// The largest count, or 0 for an empty buffer.
    pub fn max_count(&self) -> (r: u32)
        ensures
            forall|i: int| 0 <= i < self.data@.len() ==> self.data@[i] <= r,
            self.data@.len() == 0 ==> r == 0,
            self.data@.len() > 0 ==> exists|i: int| 0 <= i < self.data@.len() && self.data@[i] == r,
    {
        let mut best: u32 = 0;
        let mut i: usize = 0;
        while i < self.data.len()
            invariant
                i <= self.data@.len(),
                forall|j: int| 0 <= j < i ==> self.data@[j] <= best,
                i == 0 ==> best == 0,
                i > 0 ==> exists|j: int| 0 <= j < i && self.data@[j] == best,
            decreases self.data@.len() - i,
        {
            if i == 0 || self.data[i] > best {
                best = self.data[i];
            }
            i = i + 1;
        }
        best
    }
}

impl Default for CudaHistogramData {
    /// A buffer of 256 zero counts.
    fn default() -> (r: Self)
        ensures
            r.wf(),
            forall|i: int| 0 <= i < r.data@.len() ==> r.data@[i] == 0,
    {
        CudaHistogramData { data: vec![0u32; HISTOGRAM_BINS] }
    }
}

} // verus!
