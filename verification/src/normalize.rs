//! Pixel-format normalization: converting a capture-source frame in
//! one of several native byte layouts into a canonical packed-pixel
//! frame.

use vstd::prelude::*;
use vstd::arithmetic::div_mod::{
    lemma_div_by_multiple, lemma_fundamental_div_mod, lemma_fundamental_div_mod_converse,
    lemma_mod_multiples_basic,
};
use vstd::arithmetic::mul::{
    lemma_mul_inequality, lemma_mul_is_commutative, lemma_mul_is_distributive_add_other_way,
    lemma_mul_upper_bound,
};

use crate::frame::FrameData;

verus! {

/// The native pixel layout of a captured byte buffer. The four-byte
/// layouts carry an alpha or padding byte that normalization drops;
/// `Rgb` is tightly packed at three bytes per pixel. `Unsupported`
/// stands for any other layout the capture source may deliver; such
/// frames are silently skipped.
#[derive(Clone, Copy, Debug, PartialEq, Eq, Structural)]
pub enum PixelLayout {
    Bgra,
    Bgr0,
    Bgrx,
    Rgb,
    Rgbx,
    Xbgr,
    Unsupported,
}

/// One frame as handed over by the platform capture source: a tagged
/// byte buffer with the dimensions the source claims for it.
pub struct CapturedFrame {
    pub layout: PixelLayout,
    pub width: u32,
    pub height: u32,
    pub data: Vec<u8>,
}

/// Whether normalization knows how to read the layout.
pub open spec fn layout_supported(layout: PixelLayout) -> bool {
    !(layout is Unsupported)
}

/// Bytes per pixel of a native layout.
pub open spec fn layout_stride(layout: PixelLayout) -> nat {
    match layout {
        PixelLayout::Rgb => 3,
        PixelLayout::Unsupported => 0,
        _ => 4,
    }
}

/// Byte offset of the red sample within one pixel.
pub open spec fn red_offset(layout: PixelLayout) -> nat {
    match layout {
        PixelLayout::Bgra | PixelLayout::Bgr0 | PixelLayout::Bgrx => 2,
        PixelLayout::Rgb | PixelLayout::Rgbx => 0,
        PixelLayout::Xbgr => 3,
        PixelLayout::Unsupported => 0,
    }
}

/// Byte offset of the green sample within one pixel.
pub open spec fn green_offset(layout: PixelLayout) -> nat {
    match layout {
        PixelLayout::Bgra | PixelLayout::Bgr0 | PixelLayout::Bgrx => 1,
        PixelLayout::Rgb | PixelLayout::Rgbx => 1,
        PixelLayout::Xbgr => 2,
        PixelLayout::Unsupported => 0,
    }
}

/// Byte offset of the blue sample within one pixel.
pub open spec fn blue_offset(layout: PixelLayout) -> nat {
    match layout {
        PixelLayout::Bgra | PixelLayout::Bgr0 | PixelLayout::Bgrx => 0,
        PixelLayout::Rgb | PixelLayout::Rgbx => 2,
        PixelLayout::Xbgr => 1,
        PixelLayout::Unsupported => 0,
    }
}

/// The canonical packed pixel: `(r << 16) | (g << 8) | b`, with an
/// implicit opaque alpha. Lossless for color; alpha is dropped.
pub open spec fn packed_rgb(r: u8, g: u8, b: u8) -> u32 {
    ((r as u32) << 16) | ((g as u32) << 8) | (b as u32)
}

/// The packed pixel at index `i` of a native byte buffer.
pub open spec fn pixel_at(layout: PixelLayout, data: Seq<u8>, i: int) -> u32 {
    packed_rgb(
        data[i * layout_stride(layout) + red_offset(layout)],
        data[i * layout_stride(layout) + green_offset(layout)],
        data[i * layout_stride(layout) + blue_offset(layout)],
    )
}

/// The whole normalized pixel sequence of a native byte buffer: one
/// packed value per full stride of bytes.
pub open spec fn normalized_pixels(layout: PixelLayout, data: Seq<u8>) -> Seq<u32> {
    Seq::new(data.len() / layout_stride(layout), |i: int| pixel_at(layout, data, i))
}

/// Whether normalization produces a frame at all: the layout must be
/// readable, the claimed width nonzero, and the byte buffer must hold
/// exactly one stride of bytes per claimed pixel. Anything else is a
/// torn or mislabeled capture and yields no frame.
pub open spec fn normalizes(layout: PixelLayout, data: Seq<u8>, width: u32, height: u32) -> bool {
    &&& layout_supported(layout)
    &&& width > 0
    &&& data.len() == width * height * layout_stride(layout)
}

/// Converts a captured native frame into a canonical packed frame.
///
/// Every supported layout is normalized by the fixed byte-to-pixel
/// mapping of its stride and sample offsets. A frame whose byte count
/// does not match its claimed dimensions is dropped rather than
/// delivered torn, and an unknown layout is skipped silently; neither
/// is an error, the capture tick simply produces nothing.
pub fn frame_to_buffer(frame: &CapturedFrame) -> (r: Option<FrameData>)
    ensures
        r is Some <==> normalizes(frame.layout, frame.data@, frame.width, frame.height),
        r matches Some(f) ==> {
            &&& f.width == frame.width
            &&& f.height == frame.height
            &&& f.buffer@ == normalized_pixels(frame.layout, frame.data@)
            &&& f.wf()
        },
        layout_supported(frame.layout) && frame.data@.len() as int % layout_stride(
            frame.layout,
        ) as int != 0 ==> r is None,
{
    let (stride, ro, go, bo): (usize, usize, usize, usize) = match frame.layout {
        PixelLayout::Bgra => (4, 2, 1, 0),
        PixelLayout::Bgr0 => (4, 2, 1, 0),
        PixelLayout::Bgrx => (4, 2, 1, 0),
        PixelLayout::Rgb => (3, 0, 1, 2),
        PixelLayout::Rgbx => (4, 0, 1, 2),
        PixelLayout::Xbgr => (4, 3, 2, 1),
        PixelLayout::Unsupported => {
            return None;
        },
    };
    if frame.width == 0 {
        return None;
    }
    let len = frame.data.len();
    proof {
        lemma_mul_upper_bound(frame.width as int, u32::MAX as int, frame.height as int, u32::MAX as int);
    }
    let claimed: u64 = (frame.width as u64) * (frame.height as u64);
    if (len as u64) % (stride as u64) != 0 || (len as u64) / (stride as u64) != claimed {
        proof {
            if len as int == claimed * stride {
                lemma_mod_multiples_basic(claimed as int, stride as int);
                lemma_div_by_multiple(claimed as int, stride as int);
            }
        }
        return None;
    }
    proof {
        lemma_fundamental_div_mod(len as int, stride as int);
    }
    let n: usize = len / stride;
    let mut buffer: Vec<u32> = Vec::new();
    let ghost pixels = normalized_pixels(frame.layout, frame.data@);
    let mut i: usize = 0;
    while i < n
        invariant
            frame.data@.len() <= usize::MAX,
            frame.data@.len() == stride * n,
            stride == layout_stride(frame.layout),
            ro == red_offset(frame.layout),
            go == green_offset(frame.layout),
            bo == blue_offset(frame.layout),
            ro < stride && go < stride && bo < stride,
            pixels == normalized_pixels(frame.layout, frame.data@),
            pixels.len() == n,
            i <= n,
            buffer@.len() == i,
            forall|j: int| 0 <= j < i ==> buffer@[j] == pixels[j],
        decreases n - i,
    {
        proof {
            lemma_mul_inequality(i + 1, n as int, stride as int);
            lemma_mul_is_distributive_add_other_way(stride as int, i as int, 1);
            lemma_mul_is_commutative(n as int, stride as int);
            assert(i * stride + stride <= frame.data@.len());
        }
        let base = i * stride;
        let r = frame.data[base + ro];
        let g = frame.data[base + go];
        let b = frame.data[base + bo];
        let px: u32 = ((r as u32) << 16) | ((g as u32) << 8) | (b as u32);
        assert(px == pixels[i as int]);
        buffer.push(px);
        i = i + 1;
    }
    assert(buffer@ =~= pixels);
    proof {
        lemma_div_by_multiple(claimed as int, stride as int);
    }
    Some(FrameData { width: frame.width, height: frame.height, buffer })
}

} // verus!
