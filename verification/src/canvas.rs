use crate::color::Color;
use crate::helper::{exact, spec_zero, zero, Number};
use crate::ppm::picture_text;
use vstd::prelude::*;

verus! {

/// A rectangle of pixels, stored row by row from the top.
#[derive(Debug)]
pub struct Canvas<T> {
    width: usize,
    height: usize,
    pixels: Vec<Color<T>>,
}

/// The content of a canvas: its size and its pixels, row by row.
pub struct Picture<T> {
    pub width: nat,
    pub height: nat,
    pub pixels: Seq<Color<T>>,
}

impl<T: Number> Picture<T> {
    /// Whether `(x, y)` lies on the picture.
    pub open spec fn holds(self, x: int, y: int) -> bool {
        0 <= x < self.width && 0 <= y < self.height
    }

    /// The pixel in column `x` of row `y`.
    pub open spec fn at(self, x: int, y: int) -> Color<T> {
        self.pixels[y * self.width + x]
    }

    /// The picture of the given size that is black all over.
    pub open spec fn black(width: nat, height: nat) -> Picture<T> {
        Picture {
            width,
            height,
            pixels: Seq::new(
                width * height,
                |i: int|
                    (Color {
                        red: spec_zero::<T>(),
                        green: spec_zero::<T>(),
                        blue: spec_zero::<T>(),
                    }),
            ),
        }
    }

    /// This picture with the pixel at `(x, y)` replaced.
    pub open spec fn paint(self, x: int, y: int, color: Color<T>) -> Picture<T> {
        Picture {
            width: self.width,
            height: self.height,
            pixels: self.pixels.update(y * self.width + x, color),
        }
    }
}

/// A pixel on the canvas lies inside its storage.
proof fn lemma_pixel_index(x: int, y: int, width: int, height: int)
    by (nonlinear_arith)
    requires
        0 <= x < width,
        0 <= y < height,
    ensures
        0 <= y * width + x < width * height,
{
}

impl<T> Canvas<T> {
    #[verifier::type_invariant]
    /// There is one pixel for every place.
    spec fn inv(&self) -> bool {
        self.pixels.len() == self.width * self.height
    }
}

impl<T: Number> View for Canvas<T> {
    type V = Picture<T>;

    /// The size and the pixels.
    closed spec fn view(&self) -> Picture<T> {
        Picture { width: self.width as nat, height: self.height as nat, pixels: self.pixels@ }
    }
}

impl<T: Number> Canvas<T> {
    /// The canvas of the given size, black all over.
    pub fn new(width: usize, height: usize) -> (r: Canvas<T>)
        requires
            width * height <= usize::MAX,
        ensures
            r@.width == width,
            r@.height == height,
            r@.pixels.len() == width * height,
            exact::<T>() ==> r@ == Picture::<T>::black(width as nat, height as nat),
    {
        let n: usize = width * height;
        let mut pixels: Vec<Color<T>> = Vec::with_capacity(n);
        let mut i: usize = 0;
        while i < n
            invariant
                i <= n,
                pixels.len() == i,
                exact::<T>() ==> forall|k: int|
                    0 <= k < i ==> pixels@[k] == (Color {
                        red: spec_zero::<T>(),
                        green: spec_zero::<T>(),
                        blue: spec_zero::<T>(),
                    }),
            decreases n - i,
        {
            pixels.push(Color::new(zero(), zero(), zero()));
            i += 1;
        }
        let r = Canvas { width, height, pixels };
        proof {
            if exact::<T>() {
                assert(r@.pixels =~= Picture::<T>::black(width as nat, height as nat).pixels);
            }
        }
        r
    }

    /// The number of columns.
    pub fn width(&self) -> (r: usize)
        ensures
            r == self@.width,
    {
        self.width
    }

    /// The number of rows.
    pub fn height(&self) -> (r: usize)
        ensures
            r == self@.height,
    {
        self.height
    }

    /// Replaces the pixel at `(x, y)`; outside the canvas nothing changes.
    pub fn write_pixel(&mut self, x: usize, y: usize, color: Color<T>)
        ensures
            final(self)@ == (if old(self)@.holds(x as int, y as int) {
                old(self)@.paint(x as int, y as int, color)
            } else {
                old(self)@
            }),
    {
        if self.is_in_bound(x, y) {
            proof {
                use_type_invariant(&*self);
                lemma_pixel_index(x as int, y as int, self.width as int, self.height as int);
            }
            let i: usize = y * self.width + x;
            self.pixels[i] = color;
        }
    }

    /// The pixel at `(x, y)`, or nothing outside the canvas.
    pub fn pixel_at(&self, x: usize, y: usize) -> (r: Option<Color<T>>)
        ensures
            r == (if self@.holds(x as int, y as int) {
                Some(self@.at(x as int, y as int))
            } else {
                None
            }),
    {
        if self.is_in_bound(x, y) {
            proof {
                use_type_invariant(self);
                lemma_pixel_index(x as int, y as int, self.width as int, self.height as int);
            }
            Some(self.pixels[y * self.width + x])
        } else {
            None
        }
    }

    /// The canvas as the text of a plain PPM picture, from the samples of its
    /// pixels, row by row, as its caller scaled them to bytes.
    pub fn to_ppm_format(&self, samples: &Vec<(u8, u8, u8)>) -> (r: Vec<u8>)
        ensures
            r@ == picture_text(self@.width, self@.height, samples@),
    {
        crate::ppm::to_ppm_format(self.width, self.height, samples)
    }

    /// Whether `(x, y)` lies on the canvas.
    pub fn is_in_bound(&self, x: usize, y: usize) -> (r: bool)
        ensures
            r == self@.holds(x as int, y as int),
    {
        self.width > x && self.height > y
    }
}

} // verus!
