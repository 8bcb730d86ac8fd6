use vstd::prelude::*;

verus! {

/// Bytes in one `argb8888` pixel.
pub const BYTES_PER_PIXEL: u32 = 4;

/// How far the child surface moves along the x axis per frame.
pub const STEP_X: i32 = 2;

/// The shape of a shared-memory pixel buffer of `width` by `height` pixels:
/// rows of `stride` bytes, `size` bytes in all.
#[derive(PartialEq, Eq, Structural, Clone, Copy, Debug)]
pub struct BufferLayout {
    pub width: u32,
    pub height: u32,
    pub stride: u32,
    pub size: u32,
}

/// The arguments of the `wl_shm.create_pool` and `wl_shm_pool.create_buffer`
/// requests, which the protocol carries as signed 32-bit integers.
#[derive(PartialEq, Eq, Structural, Clone, Copy, Debug)]
pub struct ShmBufferArgs {
    pub pool_size: i32,
    pub offset: i32,
    pub width: i32,
    pub height: i32,
    pub stride: i32,
}

/// Whether a `width` by `height` buffer can be described with 32-bit sizes.
pub open spec fn fits_u32(width: u32, height: u32) -> bool {
    &&& width * BYTES_PER_PIXEL <= u32::MAX
    &&& width * BYTES_PER_PIXEL * height <= u32::MAX
}

impl BufferLayout {
    /// The layout of a tightly packed `argb8888` buffer, or `None` when its
    /// row or total size does not fit in 32 bits.
    pub fn new(width: u32, height: u32) -> (layout: Option<BufferLayout>)
        ensures
            layout is Some <==> fits_u32(width, height),
            layout matches Some(l) ==> {
                &&& l.width == width
                &&& l.height == height
                &&& l.stride == width * BYTES_PER_PIXEL
                &&& l.size == width * BYTES_PER_PIXEL * height
            },
    {
        match width.checked_mul(BYTES_PER_PIXEL) {
            Some(stride) => match stride.checked_mul(height) {
                Some(size) => Some(BufferLayout { width, height, stride, size }),
                None => None,
            },
            None => None,
        }
    }

    /// The consistency every layout built by [`BufferLayout::new`] has.
    pub open spec fn wf(self) -> bool {
        &&& self.stride == self.width * BYTES_PER_PIXEL
        &&& self.size == self.stride * self.height
    }

    /// The number of bytes to map.
    pub fn byte_len(&self) -> (n: usize)
        ensures
            n == self.size,
    {
        self.size as usize
    }

    /// The number of pixels the buffer holds.
    pub fn pixel_count(&self) -> (n: usize)
        requires
            self.wf(),
        ensures
            n == self.width * self.height,
            n * BYTES_PER_PIXEL == self.size,
    {
        proof {
            assert(self.width * BYTES_PER_PIXEL * self.height == self.width * self.height
                * BYTES_PER_PIXEL) by (nonlinear_arith);
        }
        (self.size / BYTES_PER_PIXEL) as usize
    }

    /// The request arguments for a buffer covering the whole pool from its
    /// start. Each value is reinterpreted as a signed 32-bit integer.
    pub fn shm_args(&self) -> (args: ShmBufferArgs)
        ensures
            args.pool_size == self.size as i32,
            args.offset == 0,
            args.width == self.width as i32,
            args.height == self.height as i32,
            args.stride == self.stride as i32,
    {
        ShmBufferArgs {
            pool_size: self.size as i32,
            offset: 0,
            width: self.width as i32,
            height: self.height as i32,
            stride: self.stride as i32,
        }
    }
}

/// The bytes of one `argb8888` pixel as they lie in memory: the format is a
/// little-endian 32-bit word, so blue comes first and alpha last.
pub fn argb8888(alpha: u8, red: u8, green: u8, blue: u8) -> (px: [u8; 4])
    ensures
        px@ == seq![blue, green, red, alpha],
{
    [blue, green, red, alpha]
}

/// Paints every pixel of `pixels` with `pixel`.
pub fn fill_pixels(pixels: &mut [[u8; 4]], pixel: [u8; 4])
    ensures
        final(pixels)@.len() == old(pixels)@.len(),
        forall|i: int| 0 <= i < final(pixels)@.len() ==> final(pixels)@[i] == pixel,
{
    let n = pixels.len();
    let mut i: usize = 0;
    while i < n
        invariant
            n == old(pixels)@.len(),
            pixels@.len() == n,
            i <= n,
            forall|j: int| 0 <= j < i ==> pixels@[j] == pixel,
        decreases n - i,
    {
        pixels[i] = pixel;
        i = i + 1;
    }
}

/// The next x position of the moving surface: one step to the right,
/// wrapping to the left edge once it reaches the screen width.
pub fn next_x(x: i32, screen_width: u32) -> (next: i32)
    requires
        x <= i32::MAX - STEP_X,
    ensures
        next == if x + STEP_X >= screen_width as i32 { 0 } else { x + STEP_X },
        0 <= x ==> 0 <= next,
        0 < screen_width as i32 ==> next < screen_width as i32,
{
    let next = x + STEP_X;
    if next >= screen_width as i32 {
        0
    } else {
        next
    }
}

/// The y position that puts the moving surface halfway down the screen.
pub fn center_y(screen_height: u32) -> (y: i32)
    ensures
        y == screen_height / 2,
{
    (screen_height / 2) as i32
}

} // verus!
