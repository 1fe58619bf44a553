//! The film: the pixel-indexed radiance image a frame develops into. One
//! entry per pixel, written by the film-update stage and handed to an
//! external presenter for tone mapping and output encoding.

use vstd::prelude::*;

use crate::kernels::put_film;
use crate::workitems::{zero_radiance, PixelSampleState, Vec4Bits};

verus! {

/// A high-dynamic-range film of `width x height` radiance entries, stored
/// row major by flat pixel index.
pub struct HdrFilm {
    pub width: u32,
    pub height: u32,
    pub data: Vec<Vec4Bits>,
}

impl HdrFilm {
    /// The film holds one prepared entry per pixel of its grid.
    pub open spec fn prepared(self) -> bool {
        self.data@.len() == (self.width as int) * (self.height as int)
    }

    /// A film for a `width x height` frame, not yet prepared: `prepare`
    /// allocates its storage before the first frame writes to it.
    pub fn new(width: u32, height: u32) -> (film: HdrFilm)
        ensures
            film.width == width,
            film.height == height,
            film.data@.len() == 0,
    {
        HdrFilm { width, height, data: Vec::new() }
    }

    /// Allocates (or resets) the film's storage: one zero-radiance entry
    /// per pixel.
    pub fn prepare(&mut self)
        requires
            (old(self).width as int) * (old(self).height as int) <= u32::MAX,
        ensures
            final(self).width == old(self).width,
            final(self).height == old(self).height,
            final(self).prepared(),
            forall|i: int|
                0 <= i < final(self).data@.len() ==> #[trigger] final(self).data@[i]
                    == zero_radiance(),
    {
        let wavefront_size = self.width * self.height;
        let mut data: Vec<Vec4Bits> = Vec::new();
        let mut i: u32 = 0;
        while i < wavefront_size
            invariant
                i <= wavefront_size,
                data@.len() == i as int,
                forall|j: int| 0 <= j < i ==> #[trigger] data@[j] == zero_radiance(),
            decreases wavefront_size - i,
        {
            data.push(Vec4Bits::zero());
            i = i + 1;
        }
        self.data = data;
    }

    /// The film-update pass: writes every pixel's accumulated radiance into
    /// the film at that pixel's coordinate.
    pub fn put(&mut self, states: &Vec<PixelSampleState>)
        requires
            old(self).prepared(),
            old(self).width > 0,
            states@.len() == old(self).data@.len(),
            forall|i: int|
                0 <= i < states@.len() ==> {
                    &&& ((#[trigger] states@[i]).pixel.x as int) == i % (old(self).width as int)
                    &&& ((states@[i]).pixel.y as int) == i / (old(self).width as int)
                },
        ensures
            final(self).width == old(self).width,
            final(self).height == old(self).height,
            final(self).prepared(),
            forall|i: int|
                0 <= i < states@.len() ==> #[trigger] final(self).data@[i]
                    == states@[i].radiance,
    {
        put_film(states, self.width, &mut self.data);
    }

    /// Develops the film: a copy of the radiance image, by flat pixel
    /// index.
    pub fn develop(&self) -> (img: Vec<Vec4Bits>)
        ensures
            img@ == self.data@,
    {
        let n = self.data.len();
        let mut img: Vec<Vec4Bits> = Vec::new();
        let mut i: usize = 0;
        while i < n
            invariant
                n == self.data@.len(),
                i <= n,
                img@ == self.data@.subrange(0, i as int),
            decreases n - i,
        {
            img.push(self.data[i]);
            proof {
                assert(img@ =~= self.data@.subrange(0, i as int + 1));
            }
            i = i + 1;
        }
        proof {
            assert(self.data@.subrange(0, n as int) =~= self.data@);
        }
        img
    }
}

} // verus!
