use vstd::prelude::*;

verus! {

/// Bytes of one pixel in a captured frame: blue, green, red, padding.
pub const SOURCE_BYTES_PER_PIXEL: usize = 4;

/// Bytes of one pixel in a converted frame: red, green, blue.
pub const TARGET_BYTES_PER_PIXEL: usize = 3;

/// Number of pixels of a `width` x `height` frame.
pub open spec fn pixel_count(width: u32, height: u32) -> nat {
    (width as nat) * (height as nat)
}

/// The three bytes of pixel `p` in an RGB24 buffer.
pub open spec fn rgb_at(out: Seq<u8>, p: int) -> (u8, u8, u8) {
    (out[3 * p], out[3 * p + 1], out[3 * p + 2])
}

/// The colour channels of pixel `p` of a BGRX frame, reordered as RGB.
pub open spec fn swapped_at(raw: Seq<u8>, p: int) -> (u8, u8, u8) {
    (raw[4 * p + 2], raw[4 * p + 1], raw[4 * p])
}

/// `out` is the RGB24 image of the first `n` pixels of the BGRX frame `raw`.
pub open spec fn is_rgb_of(out: Seq<u8>, raw: Seq<u8>, n: nat) -> bool {
    &&& out.len() == 3 * n
    &&& raw.len() >= 4 * n
    &&& forall|p: int| 0 <= p < n ==> #[trigger] rgb_at(out, p) == swapped_at(raw, p)
}

/// A captured frame whose length is not that of the converter's dimensions.
#[derive(Debug, Clone, Copy, PartialEq, Eq, Structural)]
pub struct FrameSizeMismatch {
    pub expected: usize,
    pub actual: usize,
}

/// Turns BGRX frames of fixed dimensions into RGB24, reusing one buffer.
pub struct FrameConverter {
    width: u32,
    height: u32,
    rgb_buffer: Vec<u8>,
}

impl FrameConverter {
    pub closed spec fn width_spec(&self) -> u32 {
        self.width
    }

    pub closed spec fn height_spec(&self) -> u32 {
        self.height
    }

    /// The converted image of the most recent frame.
    pub closed spec fn buffer(&self) -> Seq<u8> {
        self.rgb_buffer@
    }

    /// The buffer holds one RGB24 pixel per pixel of the frame, and a
    /// captured frame of these dimensions fits in memory.
    pub open spec fn wf(&self) -> bool {
        &&& pixel_count(self.width_spec(), self.height_spec()) * 4 <= usize::MAX
        &&& self.buffer().len() == 3 * pixel_count(self.width_spec(), self.height_spec())
    }

    /// A converter for `width` x `height` frames, its buffer zeroed.
    pub fn new(width: u32, height: u32) -> (r: Self)
        requires
            pixel_count(width, height) * 4 <= usize::MAX,
        ensures
            r.wf(),
            r.width_spec() == width,
            r.height_spec() == height,
            r.buffer() == Seq::new(3 * pixel_count(width, height), |_k: int| 0u8),
    {
        proof {
            assert(pixel_count(width, height) * 3 <= usize::MAX);
        }
        let n = (width as usize) * (height as usize);
        let rgb_buffer = vec![0u8; n * TARGET_BYTES_PER_PIXEL];
        let r = FrameConverter { width, height, rgb_buffer };
        assert(r.buffer() =~= Seq::new(3 * pixel_count(width, height), |_k: int| 0u8));
        r
    }

    /// Number of bytes that a captured frame must have.
    pub fn expected_frame_len(&self) -> (r: usize)
        requires
            self.wf(),
        ensures
            r == 4 * pixel_count(self.width_spec(), self.height_spec()),
    {
        (self.width as usize) * (self.height as usize) * SOURCE_BYTES_PER_PIXEL
    }

    /// Converts one BGRX frame into the reused RGB24 buffer and lends it out.
    /// A frame of any other length than the dimensions ask for is refused
    /// and leaves the converter as it was.
    pub fn convert_bgr0_to_rgb24(&mut self, bgr0_frame: &[u8]) -> (r: Result<
        &[u8],
        FrameSizeMismatch,
    >)
        requires
            old(self).wf(),
        ensures
            final(self).wf(),
            final(self).width_spec() == old(self).width_spec(),
            final(self).height_spec() == old(self).height_spec(),
            bgr0_frame@.len() == 4 * pixel_count(old(self).width_spec(), old(self).height_spec())
                <==> r is Ok,
            match r {
                Ok(v) => {
                    &&& is_rgb_of(
                        final(self).buffer(),
                        bgr0_frame@,
                        pixel_count(old(self).width_spec(), old(self).height_spec()),
                    )
                    &&& v@ == final(self).buffer()
                },
                Err(e) => {
                    &&& e.expected == 4 * pixel_count(
                        old(self).width_spec(),
                        old(self).height_spec(),
                    )
                    &&& e.actual == bgr0_frame@.len()
                    &&& final(self).buffer() == old(self).buffer()
                },
            },
    {
        let n = (self.width as usize) * (self.height as usize);
        let expected = n * SOURCE_BYTES_PER_PIXEL;
        if bgr0_frame.len() != expected {
            return Err(FrameSizeMismatch { expected, actual: bgr0_frame.len() });
        }
        let mut i: usize = 0;
        while i < n
            invariant
                0 <= i <= n,
                n == pixel_count(self.width, self.height),
                n * 4 <= usize::MAX,
                bgr0_frame@.len() == 4 * n,
                self.rgb_buffer@.len() == 3 * n,
                self.width == old(self).width,
                self.height == old(self).height,
                forall|p: int|
                    0 <= p < i ==> #[trigger] rgb_at(self.rgb_buffer@, p) == swapped_at(
                        bgr0_frame@,
                        p,
                    ),
            decreases n - i,
        {
            proof {
                assert(i * 4 + 3 < n * 4) by (nonlinear_arith)
                    requires
                        i < n,
                ;
                assert(i * 3 + 2 < n * 3) by (nonlinear_arith)
                    requires
                        i < n,
                ;
            }
            let src = i * SOURCE_BYTES_PER_PIXEL;
            let dst = i * TARGET_BYTES_PER_PIXEL;
            let ghost before = self.rgb_buffer@;
            self.rgb_buffer.set(dst, bgr0_frame[src + 2]);
            self.rgb_buffer.set(dst + 1, bgr0_frame[src + 1]);
            self.rgb_buffer.set(dst + 2, bgr0_frame[src]);
            proof {
                assert forall|p: int| 0 <= p < i + 1 implies #[trigger] rgb_at(
                    self.rgb_buffer@,
                    p,
                ) == swapped_at(bgr0_frame@, p) by {
                    if p < i {
                        assert(rgb_at(before, p) == swapped_at(bgr0_frame@, p));
                        assert(3 * p + 2 < 3 * i);
                    }
                }
            }
            i = i + 1;
        }
        Ok(self.rgb_buffer.as_slice())
    }
}

/// The converted image of a frame is determined by that frame alone: two
/// conversions of the same frame, whatever the buffer held before each,
/// leave the same bytes. Converting again is therefore idempotent.
pub proof fn lemma_conversion_determined(a: Seq<u8>, b: Seq<u8>, raw: Seq<u8>, n: nat)
    requires
        is_rgb_of(a, raw, n),
        is_rgb_of(b, raw, n),
    ensures
        a == b,
{
    assert forall|k: int| 0 <= k < a.len() implies a[k] == b[k] by {
        let p = k / 3;
        assert(0 <= p < n);
        assert(rgb_at(a, p) == swapped_at(raw, p));
        assert(rgb_at(b, p) == swapped_at(raw, p));
        assert(k == 3 * p || k == 3 * p + 1 || k == 3 * p + 2);
    }
    assert(a =~= b);
}

} // verus!
