//! Image and pixel formats.

use vstd::prelude::*;
use vstd::string::StringSliceAdditionalSpecFns;

use crate::buf_type::BufType;
use crate::fract::{fract_text, value_cmp, Fract};
use crate::info::{byte_array_to_str, padded_text};
use crate::raw;
use crate::shared::{Colorspace, Field, PixFmtFlag, Quantization, XferFunc};
use crate::text::push_str;

pub use crate::pixel_format::PixelFormat;
pub use crate::shared::FormatFlags;

verus! {

/// Formats of the supported buffer types.
#[non_exhaustive]
pub enum Format {
    VideoCapture(PixFormat),
    VideoOutput(PixFormat),
    VideoCaptureMplane(PixFormatMplane),
    VideoOutputMplane(PixFormatMplane),
    MetaCapture(MetaFormat),
    MetaOutput(MetaFormat),
}

impl Format {
    /// The buffer type this format describes.
    pub fn buf_type(&self) -> (r: BufType)
        ensures
            r == match self {
                Format::VideoCapture(_) => BufType::VIDEO_CAPTURE,
                Format::VideoOutput(_) => BufType::VIDEO_OUTPUT,
                Format::VideoCaptureMplane(_) => BufType::VIDEO_CAPTURE_MPLANE,
                Format::VideoOutputMplane(_) => BufType::VIDEO_OUTPUT_MPLANE,
                Format::MetaCapture(_) => BufType::META_CAPTURE,
                Format::MetaOutput(_) => BufType::META_OUTPUT,
            },
    {
        match self {
            Format::VideoCapture(_) => BufType::VIDEO_CAPTURE,
            Format::VideoOutput(_) => BufType::VIDEO_OUTPUT,
            Format::VideoCaptureMplane(_) => BufType::VIDEO_CAPTURE_MPLANE,
            Format::VideoOutputMplane(_) => BufType::VIDEO_OUTPUT_MPLANE,
            Format::MetaCapture(_) => BufType::META_CAPTURE,
            Format::MetaOutput(_) => BufType::META_OUTPUT,
        }
    }
}

/// Pixel format of a `VIDEO_OUTPUT` or `VIDEO_CAPTURE` buffer.
pub struct PixFormat(pub raw::PixFormat);

pub struct PixFormatMplane(pub raw::PixFormatMplane);

pub struct PlanePixFormat(pub raw::PlanePixFormat);

/// Metadata format of a `META_CAPTURE` or `META_OUTPUT` buffer.
pub struct MetaFormat(pub raw::MetaFormat);

impl PixFormat {
    /// A format request for `width` x `height` images in `pixel_format`; every other field is
    /// zero, leaving the choice to the driver.
    pub fn new(width: u32, height: u32, pixel_format: PixelFormat) -> (r: Self)
        ensures
            r.0.width == width,
            r.0.height == height,
            r.0.pixel_format == pixel_format,
            r.0.field@ == 0,
            r.0.bytesperline == 0,
            r.0.sizeimage == 0,
            r.0.colorspace@ == 0,
            r.0.priv_ == 0,
            r.0.flags@ == 0,
            r.0.enc == 0,
            r.0.quantization@ == 0,
            r.0.xfer_func@ == 0,
    {
        PixFormat(
            raw::PixFormat {
                width,
                height,
                pixel_format,
                field: Field::from_raw(0),
                bytesperline: 0,
                sizeimage: 0,
                colorspace: Colorspace::from_raw(0),
                priv_: 0,
                flags: PixFmtFlag::empty(),
                enc: 0,
                quantization: Quantization::from_raw(0),
                xfer_func: XferFunc::from_raw(0),
            },
        )
    }

    pub fn to_raw(self) -> (r: raw::PixFormat)
        ensures
            r == self.0,
    {
        self.0
    }

    pub fn width(&self) -> (r: u32)
        ensures
            r == self.0.width,
    {
        self.0.width
    }

    pub fn height(&self) -> (r: u32)
        ensures
            r == self.0.height,
    {
        self.0.height
    }

    pub fn pixel_format(&self) -> (r: PixelFormat)
        ensures
            r == self.0.pixel_format,
    {
        self.0.pixel_format
    }

    pub fn bytes_per_line(&self) -> (r: u32)
        ensures
            r == self.0.bytesperline,
    {
        self.0.bytesperline
    }

    pub fn size_image(&self) -> (r: u32)
        ensures
            r == self.0.sizeimage,
    {
        self.0.sizeimage
    }
}

/// The number of plane formats of `f` that hold data: the count the driver reports, of which at
/// most `VIDEO_MAX_PLANES` exist.
pub open spec fn plane_count(f: raw::PixFormatMplane) -> int {
    if f.num_planes as int <= 8 {
        f.num_planes as int
    } else {
        8
    }
}

impl PixFormatMplane {
    pub fn to_raw(self) -> (r: raw::PixFormatMplane)
        ensures
            r == self.0,
    {
        self.0
    }

    /// The number of planes the driver reports.
    pub fn num_planes(&self) -> (r: usize)
        ensures
            r == self.0.num_planes,
    {
        self.0.num_planes as usize
    }

    /// The formats of the planes, in order.
    pub fn plane_formats(&self) -> (r: Vec<PlanePixFormat>)
        ensures
            r@.len() == plane_count(self.0),
            forall|i: int| 0 <= i < r@.len() ==> #[trigger] r@[i].0 == self.0.plane_fmt[i],
    {
        let n: usize = if self.0.num_planes as usize <= raw::VIDEO_MAX_PLANES {
            self.0.num_planes as usize
        } else {
            raw::VIDEO_MAX_PLANES
        };
        let mut r: Vec<PlanePixFormat> = Vec::new();
        let mut i: usize = 0;
        while i < n
            invariant
                n == plane_count(self.0),
                n <= 8,
                i <= n,
                r@.len() == i,
                forall|j: int| 0 <= j < i ==> #[trigger] r@[j].0 == self.0.plane_fmt[j],
            decreases n - i,
        {
            r.push(PlanePixFormat(self.0.plane_fmt[i]));
            i = i + 1;
        }
        r
    }
}

impl PlanePixFormat {
    pub fn size_image(&self) -> (r: u32)
        ensures
            r == self.0.sizeimage,
    {
        self.0.sizeimage
    }

    pub fn bytes_per_line(&self) -> (r: u32)
        ensures
            r == self.0.bytesperline,
    {
        self.0.bytesperline
    }
}

impl MetaFormat {
    /// A metadata format request for `format`; the buffer size is chosen by the driver.
    pub fn new(format: PixelFormat) -> (r: Self)
        ensures
            r.0.dataformat == format,
            r.0.buffersize == 0,
    {
        MetaFormat(raw::MetaFormat { dataformat: format, buffersize: 0 })
    }

    pub fn buffer_size(&self) -> (r: u32)
        ensures
            r == self.0.buffersize,
    {
        self.0.buffersize
    }

    pub fn to_raw(self) -> (r: raw::MetaFormat)
        ensures
            r == self.0,
    {
        self.0
    }
}

/// Describes a pixel format a device supports.
pub struct FormatDesc(pub raw::FmtDesc);

impl FormatDesc {
    pub fn flags(&self) -> (r: FormatFlags)
        ensures
            r == self.0.flags,
    {
        self.0.flags
    }

    /// The driver's description of the format; `None` when it is not NUL-terminated UTF-8.
    pub fn description(&self) -> (r: Option<&str>)
        ensures
            r is Some <==> padded_text(self.0.description@) is Some,
            r matches Some(s) ==> padded_text(self.0.description@) == Some(s.spec_bytes()),
    {
        byte_array_to_str(self.0.description.as_slice())
    }

    pub fn pixel_format(&self) -> (r: PixelFormat)
        ensures
            r == self.0.pixel_format,
    {
        self.0.pixel_format
    }
}

/// The smallest value of a non-empty sequence.
pub open spec fn seq_min(s: Seq<u32>) -> u32
    decreases s.len(),
{
    if s.len() <= 1 {
        s[0]
    } else if s.last() < seq_min(s.drop_last()) {
        s.last()
    } else {
        seq_min(s.drop_last())
    }
}

/// The largest value of a non-empty sequence.
pub open spec fn seq_max(s: Seq<u32>) -> u32
    decreases s.len(),
{
    if s.len() <= 1 {
        s[0]
    } else if s.last() > seq_max(s.drop_last()) {
        s.last()
    } else {
        seq_max(s.drop_last())
    }
}

/// The widths of discrete frame sizes.
pub open spec fn widths(sizes: Seq<DiscreteFrameSize>) -> Seq<u32> {
    sizes.map_values(|d: DiscreteFrameSize| d.raw.width)
}

/// The heights of discrete frame sizes.
pub open spec fn heights(sizes: Seq<DiscreteFrameSize>) -> Seq<u32> {
    sizes.map_values(|d: DiscreteFrameSize| d.raw.height)
}

/// Running minimum or maximum over a sequence of `u32`.
fn extreme(values: &Vec<u32>, want_max: bool) -> (r: u32)
    requires
        values@.len() > 0,
    ensures
        r == (if want_max {
            seq_max(values@)
        } else {
            seq_min(values@)
        }),
{
    let mut best: u32 = values[0];
    let mut i: usize = 1;
    while i < values.len()
        invariant
            1 <= i <= values@.len(),
            best == (if want_max {
                seq_max(values@.take(i as int))
            } else {
                seq_min(values@.take(i as int))
            }),
        decreases values@.len() - i,
    {
        proof {
            assert(values@.take(i + 1).drop_last() =~= values@.take(i as int));
        }
        let v: u32 = values[i];
        if want_max {
            if v > best {
                best = v;
            }
        } else {
            if v < best {
                best = v;
            }
        }
        i = i + 1;
    }
    proof {
        assert(values@.take(i as int) =~= values@);
    }
    best
}

/// The supported frame sizes of a pixel format.
pub enum FrameSizes {
    /// A list of sizes, in enumeration order.
    Discrete(Vec<DiscreteFrameSize>),
    Stepwise(StepwiseFrameSizes),
    Continuous(StepwiseFrameSizes),
}

/// A range of frame sizes.
pub struct StepwiseFrameSizes(pub raw::FrmSizeStepwise);

/// One discrete frame size and its index in the enumeration.
pub struct DiscreteFrameSize {
    pub raw: raw::FrmSizeDiscrete,
    pub index: u32,
}

impl FrameSizes {
    /// Whether the size list is non-empty, as the driver always reports at least one size.
    pub open spec fn wf(&self) -> bool {
        self matches FrameSizes::Discrete(v) ==> v@.len() > 0
    }

    fn dimension(&self, want_height: bool, want_max: bool) -> (r: u32)
        requires
            self.wf(),
        ensures
            r == match self {
                FrameSizes::Discrete(v) => {
                    let s = if want_height {
                        heights(v@)
                    } else {
                        widths(v@)
                    };
                    if want_max {
                        seq_max(s)
                    } else {
                        seq_min(s)
                    }
                },
                FrameSizes::Stepwise(s) | FrameSizes::Continuous(s) => if want_height {
                    if want_max {
                        s.0.max_height
                    } else {
                        s.0.min_height
                    }
                } else {
                    if want_max {
                        s.0.max_width
                    } else {
                        s.0.min_width
                    }
                },
            },
    {
        match self {
            FrameSizes::Discrete(sizes) => {
                let mut values: Vec<u32> = Vec::new();
                let mut i: usize = 0;
                while i < sizes.len()
                    invariant
                        i <= sizes@.len(),
                        values@ =~= (if want_height {
                            heights(sizes@)
                        } else {
                            widths(sizes@)
                        }).take(i as int),
                    decreases sizes@.len() - i,
                {
                    if want_height {
                        values.push(sizes[i].raw.height);
                    } else {
                        values.push(sizes[i].raw.width);
                    }
                    i = i + 1;
                }
                proof {
                    let s = if want_height {
                        heights(sizes@)
                    } else {
                        widths(sizes@)
                    };
                    assert(s.take(i as int) =~= s);
                }
                extreme(&values, want_max)
            },
            FrameSizes::Stepwise(s) | FrameSizes::Continuous(s) => {
                if want_height {
                    if want_max {
                        s.0.max_height
                    } else {
                        s.0.min_height
                    }
                } else {
                    if want_max {
                        s.0.max_width
                    } else {
                        s.0.min_width
                    }
                }
            },
        }
    }

    /// The smallest supported width.
    pub fn min_width(&self) -> (r: u32)
        requires
            self.wf(),
        ensures
            r == match self {
                FrameSizes::Discrete(v) => seq_min(widths(v@)),
                FrameSizes::Stepwise(s) | FrameSizes::Continuous(s) => s.0.min_width,
            },
    {
        self.dimension(false, false)
    }

    /// The smallest supported height.
    pub fn min_height(&self) -> (r: u32)
        requires
            self.wf(),
        ensures
            r == match self {
                FrameSizes::Discrete(v) => seq_min(heights(v@)),
                FrameSizes::Stepwise(s) | FrameSizes::Continuous(s) => s.0.min_height,
            },
    {
        self.dimension(true, false)
    }

    /// The largest supported width.
    pub fn max_width(&self) -> (r: u32)
        requires
            self.wf(),
        ensures
            r == match self {
                FrameSizes::Discrete(v) => seq_max(widths(v@)),
                FrameSizes::Stepwise(s) | FrameSizes::Continuous(s) => s.0.max_width,
            },
    {
        self.dimension(false, true)
    }

    /// The largest supported height.
    pub fn max_height(&self) -> (r: u32)
        requires
            self.wf(),
        ensures
            r == match self {
                FrameSizes::Discrete(v) => seq_max(heights(v@)),
                FrameSizes::Stepwise(s) | FrameSizes::Continuous(s) => s.0.max_height,
            },
    {
        self.dimension(true, true)
    }
}

impl StepwiseFrameSizes {
    pub fn min_width(&self) -> (r: u32)
        ensures
            r == self.0.min_width,
    {
        self.0.min_width
    }

    pub fn min_height(&self) -> (r: u32)
        ensures
            r == self.0.min_height,
    {
        self.0.min_height
    }

    pub fn max_width(&self) -> (r: u32)
        ensures
            r == self.0.max_width,
    {
        self.0.max_width
    }

    pub fn max_height(&self) -> (r: u32)
        ensures
            r == self.0.max_height,
    {
        self.0.max_height
    }

    pub fn step_width(&self) -> (r: u32)
        ensures
            r == self.0.step_width,
    {
        self.0.step_width
    }

    pub fn step_height(&self) -> (r: u32)
        ensures
            r == self.0.step_height,
    {
        self.0.step_height
    }
}

impl DiscreteFrameSize {
    pub fn width(&self) -> (r: u32)
        ensures
            r == self.raw.width,
    {
        self.raw.width
    }

    pub fn height(&self) -> (r: u32)
        ensures
            r == self.raw.height,
    {
        self.raw.height
    }

    pub fn index(&self) -> (r: u32)
        ensures
            r == self.index,
    {
        self.index
    }
}

/// The index of the first smallest fraction (by value) of a non-empty sequence.
pub open spec fn first_min_index(s: Seq<Fract>) -> int
    decreases s.len(),
{
    if s.len() <= 1 {
        0
    } else {
        let k = first_min_index(s.drop_last());
        if value_cmp(s.last()@, s[k]@) == core::cmp::Ordering::Less {
            s.len() - 1
        } else {
            k
        }
    }
}

/// The index of the last largest fraction (by value) of a non-empty sequence.
pub open spec fn last_max_index(s: Seq<Fract>) -> int
    decreases s.len(),
{
    if s.len() <= 1 {
        0
    } else {
        let k = last_max_index(s.drop_last());
        if value_cmp(s.last()@, s[k]@) != core::cmp::Ordering::Less {
            s.len() - 1
        } else {
            k
        }
    }
}

proof fn lemma_extreme_index_bounds(s: Seq<Fract>)
    requires
        s.len() > 0,
    ensures
        0 <= first_min_index(s) < s.len(),
        0 <= last_max_index(s) < s.len(),
    decreases s.len(),
{
    if s.len() > 1 {
        lemma_extreme_index_bounds(s.drop_last());
    }
}

/// The fractions of discrete frame intervals.
pub open spec fn fracts(list: Seq<DiscreteFrameInterval>) -> Seq<Fract> {
    list.map_values(|d: DiscreteFrameInterval| d.raw)
}

/// The supported frame intervals of a pixel format and frame size.
pub enum FrameIntervals {
    /// A list of intervals, in enumeration order.
    Discrete(Vec<DiscreteFrameInterval>),
    Stepwise(StepwiseFrameIntervals),
    Continuous(StepwiseFrameIntervals),
}

impl FrameIntervals {
    /// Whether the interval list is non-empty, as the driver always reports at least one.
    pub open spec fn wf(&self) -> bool {
        self matches FrameIntervals::Discrete(v) ==> v@.len() > 0
    }

    fn extreme(&self, want_max: bool) -> (r: Fract)
        requires
            self.wf(),
        ensures
            r == match self {
                FrameIntervals::Discrete(v) => if want_max {
                    fracts(v@)[last_max_index(fracts(v@))]
                } else {
                    fracts(v@)[first_min_index(fracts(v@))]
                },
                FrameIntervals::Stepwise(s) | FrameIntervals::Continuous(s) => if want_max {
                    s.0.max
                } else {
                    s.0.min
                },
            },
    {
        match self {
            FrameIntervals::Discrete(list) => {
                let ghost all = fracts(list@);
                let mut best: usize = 0;
                let mut i: usize = 1;
                while i < list.len()
                    invariant
                        all == fracts(list@),
                        1 <= i <= list@.len(),
                        best == (if want_max {
                            last_max_index(all.take(i as int))
                        } else {
                            first_min_index(all.take(i as int))
                        }),
                        best < i,
                    decreases list@.len() - i,
                {
                    proof {
                        assert(all.take(i + 1).drop_last() =~= all.take(i as int));
                        lemma_extreme_index_bounds(all.take(i as int));
                    }
                    let c: core::cmp::Ordering = list[i].raw.compare(&list[best].raw);
                    let replace: bool = match c {
                        core::cmp::Ordering::Less => true,
                        core::cmp::Ordering::Equal => want_max,
                        core::cmp::Ordering::Greater => want_max,
                    };
                    let keep_max: bool = match c {
                        core::cmp::Ordering::Less => false,
                        _ => true,
                    };
                    if (want_max && keep_max) || (!want_max && replace) {
                        best = i;
                    }
                    i = i + 1;
                }
                proof {
                    assert(all.take(i as int) =~= all);
                }
                list[best].raw
            },
            FrameIntervals::Stepwise(s) | FrameIntervals::Continuous(s) => {
                if want_max {
                    s.0.max
                } else {
                    s.0.min
                }
            },
        }
    }

    /// The shortest supported interval: the first of the smallest value for a list.
    pub fn min(&self) -> (r: Fract)
        requires
            self.wf(),
        ensures
            r == match self {
                FrameIntervals::Discrete(v) => fracts(v@)[first_min_index(fracts(v@))],
                FrameIntervals::Stepwise(s) | FrameIntervals::Continuous(s) => s.0.min,
            },
    {
        self.extreme(false)
    }

    /// The longest supported interval: the last of the largest value for a list.
    pub fn max(&self) -> (r: Fract)
        requires
            self.wf(),
        ensures
            r == match self {
                FrameIntervals::Discrete(v) => fracts(v@)[last_max_index(fracts(v@))],
                FrameIntervals::Stepwise(s) | FrameIntervals::Continuous(s) => s.0.max,
            },
    {
        self.extreme(true)
    }
}

/// Fractions written out and separated by `", "`.
pub open spec fn joined_fracts(s: Seq<Fract>) -> Seq<char>
    decreases s.len(),
{
    if s.len() == 0 {
        seq![]
    } else if s.len() == 1 {
        fract_text(s[0]@)
    } else {
        joined_fracts(s.drop_last()) + seq![',', ' '] + fract_text(s.last()@)
    }
}

impl FrameIntervals {
    /// How frame intervals are written: a list as `a, b, c`; a range as `min-max (step s)`, or
    /// `min-max` when it is continuous.
    pub open spec fn text(&self) -> Seq<char> {
        match self {
            FrameIntervals::Discrete(v) => joined_fracts(fracts(v@)),
            FrameIntervals::Stepwise(i) => fract_text(i.0.min@) + seq!['-'] + fract_text(i.0.max@)
                + " (step "@ + fract_text(i.0.step@) + seq![')'],
            FrameIntervals::Continuous(i) => fract_text(i.0.min@) + seq!['-'] + fract_text(
                i.0.max@,
            ),
        }
    }

    /// The frame intervals written out, as [`FrameIntervals::text`] describes.
    pub fn to_string(&self) -> (r: String)
        ensures
            r@ == self.text(),
    {
        let mut s: String = String::new();
        match self {
            FrameIntervals::Discrete(list) => {
                let ghost all = fracts(list@);
                let mut i: usize = 0;
                while i < list.len()
                    invariant
                        all == fracts(list@),
                        i <= list@.len(),
                        s@ == joined_fracts(all.take(i as int)),
                    decreases list@.len() - i,
                {
                    proof {
                        assert(all.take(i + 1).drop_last() =~= all.take(i as int));
                    }
                    if i != 0 {
                        push_str(&mut s, ", ");
                        proof {
                            reveal_strlit(", ");
                        }
                    }
                    list[i].raw.write_to(&mut s);
                    proof {
                        if i == 0 {
                            assert(s@ =~= joined_fracts(all.take(1)));
                        } else {
                            assert(s@ =~= joined_fracts(all.take(i + 1)));
                        }
                    }
                    i = i + 1;
                }
                proof {
                    assert(all.take(i as int) =~= all);
                }
            },
            FrameIntervals::Stepwise(ival) => {
                ival.0.min.write_to(&mut s);
                push_str(&mut s, "-");
                ival.0.max.write_to(&mut s);
                push_str(&mut s, " (step ");
                ival.0.step.write_to(&mut s);
                push_str(&mut s, ")");
                proof {
                    reveal_strlit("-");
                    reveal_strlit(" (step ");
                    reveal_strlit(")");
                    assert(s@ =~= self.text());
                }
            },
            FrameIntervals::Continuous(ival) => {
                ival.0.min.write_to(&mut s);
                push_str(&mut s, "-");
                ival.0.max.write_to(&mut s);
                proof {
                    reveal_strlit("-");
                    assert(s@ =~= self.text());
                }
            },
        }
        s
    }
}

/// One discrete frame interval and its index in the enumeration.
pub struct DiscreteFrameInterval {
    pub index: u32,
    pub raw: Fract,
}

impl DiscreteFrameInterval {
    pub fn index(&self) -> (r: u32)
        ensures
            r == self.index,
    {
        self.index
    }

    pub fn fract(&self) -> (r: &Fract)
        ensures
            *r == self.raw,
    {
        &self.raw
    }
}

/// A range of frame intervals.
pub struct StepwiseFrameIntervals(pub raw::FrmIvalStepwise);

impl StepwiseFrameIntervals {
    pub fn min(&self) -> (r: &Fract)
        ensures
            *r == self.0.min,
    {
        &self.0.min
    }

    pub fn max(&self) -> (r: &Fract)
        ensures
            *r == self.0.max,
    {
        &self.0.max
    }

    pub fn step(&self) -> (r: &Fract)
        ensures
            *r == self.0.step,
    {
        &self.0.step
    }
}

} // verus!
