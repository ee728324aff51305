use vstd::prelude::*;

verus! {

/// Why a height grid could not be built.
#[derive(Debug, Clone, Copy, PartialEq, Eq, Structural)]
pub enum GridError {
    /// The sample buffer does not hold exactly `width * height` samples.
    SampleCountMismatch,
    /// A decoded image holds fewer than `width * height` bytes.
    ShortPixelBuffer,
}

/// A row-major grid of height samples: `height` rows of `width` samples each.
/// The sample at row `r`, column `c` is `samples[r * width + c]`.
#[derive(Debug)]
pub struct HeightGrid {
    pub width: usize,
    pub height: usize,
    pub samples: Vec<u8>,
}

impl HeightGrid {
    /// The grid holds one sample per cell.
    pub open spec fn wf(&self) -> bool {
        self.samples@.len() == self.width * self.height
    }

    /// Whether `(row, col)` lies on the grid.
    pub open spec fn on_grid(&self, row: int, col: int) -> bool {
        0 <= row < self.height && 0 <= col < self.width
    }

    /// The sample at `(row, col)`.
    pub open spec fn sample(&self, row: int, col: int) -> int {
        self.samples@[row * self.width + col] as int
    }

    /// A grid over `samples`, which must hold exactly `width * height` values.
    pub fn new(width: usize, height: usize, samples: Vec<u8>) -> (r: Result<HeightGrid, GridError>)
        ensures
            r is Ok <==> samples@.len() == width * height,
            r is Ok ==> r->Ok_0.wf() && r->Ok_0.width == width && r->Ok_0.height == height
                && r->Ok_0.samples@ == samples@,
            r is Err ==> r->Err_0 == GridError::SampleCountMismatch,
    {
        let len = samples.len();
        match width.checked_mul(height) {
            Some(n) => {
                if n == len {
                    Ok(HeightGrid { width, height, samples })
                } else {
                    Err(GridError::SampleCountMismatch)
                }
            },
            None => Err(GridError::SampleCountMismatch),
        }
    }

    /// The samples as unscaled heights, in order.
    pub fn heights(&self) -> (r: Vec<u32>)
        ensures
            r@.len() == self.samples@.len(),
            forall|i: int| 0 <= i < r@.len() ==> #[trigger] r@[i] == self.samples@[i] as u32,
    {
        let mut r: Vec<u32> = Vec::new();
        let mut i: usize = 0;
        while i < self.samples.len()
            invariant
                i <= self.samples@.len(),
                r@.len() == i,
                forall|j: int| 0 <= j < i ==> #[trigger] r@[j] == self.samples@[j] as u32,
            decreases self.samples@.len() - i,
        {
            r.push(self.samples[i] as u32);
            i = i + 1;
        }
        r
    }

    /// A grid of `width * height` samples, all equal to `depth`.
    pub fn load_flat_map(width: usize, height: usize, depth: u8) -> (r: HeightGrid)
        requires
            width * height <= usize::MAX,
        ensures
            r.wf(),
            r.width == width,
            r.height == height,
            forall|i: int| 0 <= i < r.samples@.len() ==> r.samples@[i] == depth,
    {
        let n: usize = width * height;
        let mut samples: Vec<u8> = Vec::new();
        let mut i: usize = 0;
        while i < n
            invariant
                i <= n,
                samples@.len() == i,
                forall|j: int| 0 <= j < i ==> samples@[j] == depth,
            decreases n - i,
        {
            samples.push(depth);
            i = i + 1;
        }
        HeightGrid { width, height, samples }
    }

    /// A grid read from a decoded image: its first `width * height` bytes, one
    /// per cell, row-major.
    pub fn from_image(width: u32, height: u32, pixels: &Vec<u8>) -> (r: Result<HeightGrid, GridError>)
        ensures
            r is Ok <==> width * height <= pixels@.len(),
            r is Ok ==> r->Ok_0.wf() && r->Ok_0.width == width && r->Ok_0.height == height
                && r->Ok_0.samples@ == pixels@.subrange(0, width * height),
            r is Err ==> r->Err_0 == GridError::ShortPixelBuffer,
    {
        let w = width as usize;
        let h = height as usize;
        let len = pixels.len();
        match w.checked_mul(h) {
            Some(n) => {
                if n <= len {
                    let mut samples: Vec<u8> = Vec::new();
                    let mut i: usize = 0;
                    while i < n
                        invariant
                            i <= n,
                            n <= pixels@.len(),
                            samples@ == pixels@.subrange(0, i as int),
                        decreases n - i,
                    {
                        samples.push(pixels[i]);
                        i = i + 1;
                        assert(samples@ =~= pixels@.subrange(0, i as int));
                    }
                    Ok(HeightGrid { width: w, height: h, samples })
                } else {
                    Err(GridError::ShortPixelBuffer)
                }
            },
            None => Err(GridError::ShortPixelBuffer),
        }
    }
}

} // verus!
