use vstd::prelude::*;

verus! {

/// The raster that a render fills: an `image::ImageBuffer` of 8-bit RGB
/// pixels over a byte vector.
#[verifier::external_body]
pub struct MandelbrotImage {
    buffer: image::ImageBuffer<image::Rgb<u8>, Vec<u8>>,
}

/// The width and the height of an image, in pixels.
pub uninterp spec fn image_size(img: MandelbrotImage) -> (u32, u32);

/// The pixels of an image: the red, green and blue channel at each position
/// `(x, y)` within its width and height.
pub uninterp spec fn image_pixels(img: MandelbrotImage) -> Map<(u32, u32), (u8, u8, u8)>;

/// Whether an image of this width and height fits in a byte vector. The
/// length of the buffer is taken in two steps, three bytes per pixel times
/// the width and then times the height: neither product may overflow, even
/// where the height is zero, and a vector holds `isize::MAX` bytes at most.
pub open spec fn image_fits(width: u32, height: u32) -> bool {
    &&& 3 * width <= isize::MAX
    &&& 3 * width * height <= isize::MAX
}

/// Where channel `k` of the pixel at `(x, y)` lies among the bytes of an
/// image of the given width: rows follow one another, and so do the three
/// channels of a pixel.
pub open spec fn sample_index(width: u32, x: u32, y: u32, k: int) -> int {
    3 * (y * width + x) + k
}

/// Whether `bytes` hold the pixels of an image of the given size: three
/// bytes for each pixel, row after row.
pub open spec fn is_raster(
    bytes: Seq<u8>,
    size: (u32, u32),
    pixels: Map<(u32, u32), (u8, u8, u8)>,
) -> bool {
    &&& bytes.len() == 3 * size.0 * size.1
    &&& forall|x: u32, y: u32|
        x < size.0 && y < size.1 ==> {
            let rgb = #[trigger] pixels[(x, y)];
            &&& bytes[sample_index(size.0, x, y, 0)] == rgb.0
            &&& bytes[sample_index(size.0, x, y, 1)] == rgb.1
            &&& bytes[sample_index(size.0, x, y, 2)] == rgb.2
        }
}

/// `image::ImageBuffer::new`: a new image of the given width and height.
/// The outside function panics where three times the width, or that times
/// the height, overflows, or where the buffer would be larger than a vector
/// can be.
#[verifier::external_body]
fn blank_image(width: u32, height: u32) -> (img: MandelbrotImage)
    requires
        image_fits(width, height),
    ensures
        image_size(img) == (width, height),
{
    MandelbrotImage { buffer: image::ImageBuffer::new(width, height) }
}

/// `image::ImageBuffer::dimensions`: the width and the height.
#[verifier::external_body]
fn dimensions(img: &MandelbrotImage) -> (size: (u32, u32))
    ensures
        size == image_size(*img),
{
    img.buffer.dimensions()
}

/// `image::ImageBuffer::get_pixel`: the pixel at `(x, y)`. The outside
/// function panics where `(x, y)` is out of bounds.
#[verifier::external_body]
fn get_pixel(img: &MandelbrotImage, x: u32, y: u32) -> (rgb: (u8, u8, u8))
    requires
        x < image_size(*img).0,
        y < image_size(*img).1,
    ensures
        rgb == image_pixels(*img)[(x, y)],
{
    let p = img.buffer.get_pixel(x, y);
    (p.0[0], p.0[1], p.0[2])
}

/// `image::ImageBuffer::put_pixel`: overwrites the pixel at `(x, y)` and
/// leaves every other pixel and the size as they were. The outside function
/// panics where `(x, y)` is out of bounds.
#[verifier::external_body]
fn put_pixel(img: &mut MandelbrotImage, x: u32, y: u32, rgb: (u8, u8, u8))
    requires
        x < image_size(*old(img)).0,
        y < image_size(*old(img)).1,
    ensures
        image_size(*final(img)) == image_size(*old(img)),
        image_pixels(*final(img)) == image_pixels(*old(img)).insert((x, y), rgb),
{
    img.buffer.put_pixel(x, y, image::Rgb([rgb.0, rgb.1, rgb.2]));
}

/// `image::ImageBuffer::into_raw`: the bytes of the image, three for each
/// pixel, row after row.
#[verifier::external_body]
fn raw_bytes(img: MandelbrotImage) -> (bytes: Vec<u8>)
    ensures
        is_raster(bytes@, image_size(img), image_pixels(img)),
{
    img.buffer.into_raw()
}

impl MandelbrotImage {
    /// The width of the image in pixels.
    pub fn width(&self) -> (w: u32)
        ensures
            w == image_size(*self).0,
    {
        dimensions(self).0
    }

    /// The height of the image in pixels.
    pub fn height(&self) -> (h: u32)
        ensures
            h == image_size(*self).1,
    {
        dimensions(self).1
    }

    /// The pixel at `(x, y)`, or `None` where `(x, y)` lies outside the
    /// image.
    pub fn pixel(&self, x: u32, y: u32) -> (rgb: Option<(u8, u8, u8)>)
        ensures
            rgb == if x < image_size(*self).0 && y < image_size(*self).1 {
                Some(image_pixels(*self)[(x, y)])
            } else {
                None
            },
    {
        let (w, h) = dimensions(self);
        if x < w && y < h {
            Some(get_pixel(self, x, y))
        } else {
            None
        }
    }

    /// Gives up the image for its bytes: three for each pixel, row after
    /// row, ready to be encoded.
    pub fn into_raw(self) -> (bytes: Vec<u8>)
        ensures
            is_raster(bytes@, image_size(self), image_pixels(self)),
    {
        raw_bytes(self)
    }
}

/// Paints a square image of `size` by `size` pixels: the pixel at `(x, y)`
/// is what `shade` returns for `(x, y)`.
pub fn render<F: Fn(u32, u32) -> (u8, u8, u8)>(size: u32, shade: F) -> (img: MandelbrotImage)
    requires
        image_fits(size, size),
        forall|x: u32, y: u32| x < size && y < size ==> call_requires(shade, (x, y)),
    ensures
        image_size(img) == (size, size),
        forall|x: u32, y: u32|
            x < size && y < size ==> call_ensures(shade, (x, y), #[trigger] image_pixels(img)[(x, y)]),
{
    let mut img = blank_image(size, size);
    let mut x: u32 = 0;
    while x < size
        invariant
            x <= size,
            image_size(img) == (size, size),
            forall|i: u32, j: u32| i < size && j < size ==> call_requires(shade, (i, j)),
            forall|i: u32, j: u32|
                i < x && j < size ==> call_ensures(shade, (i, j), #[trigger] image_pixels(img)[(i, j)]),
        decreases size - x,
    {
        let mut y: u32 = 0;
        while y < size
            invariant
                x < size,
                y <= size,
                image_size(img) == (size, size),
                forall|i: u32, j: u32| i < size && j < size ==> call_requires(shade, (i, j)),
                forall|i: u32, j: u32|
                    i < x && j < size ==> call_ensures(
                        shade,
                        (i, j),
                        #[trigger] image_pixels(img)[(i, j)],
                    ),
                forall|j: u32|
                    j < y ==> call_ensures(shade, (x, j), #[trigger] image_pixels(img)[(x, j)]),
            decreases size - y,
        {
            let rgb = shade(x, y);
            put_pixel(&mut img, x, y, rgb);
            y = y + 1;
        }
        x = x + 1;
    }
    img
}

} // verus!
