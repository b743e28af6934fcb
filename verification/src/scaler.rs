//! Scaling of images, in software or on a video processing subsystem.
use vstd::prelude::*;

use crate::config::{
    CropMode, Dims, ScaleDims, ScalerSetup, SoftwareScaling, SoftwareScalingAlg,
};
use crate::grid::{cell_side, grid_cell, make_centered_grid, Grid};
use crate::raster::{
    can_resize, dynamic_height, dynamic_pixels, dynamic_rgb8, dynamic_width, fits_rgb8, is_outcome,
    is_resized, resampled, resizable, Filter, Pixels, RgbImage,
};
use crate::vpss::VpssScaler;

verus! {

/// The size that a pass gives to an image of `width` by `height` pixels.
pub open spec fn target_dims(dims: ScaleDims, width: u32, height: u32) -> (u32, u32) {
    match dims {
        ScaleDims::Absolute(size) => (size.width, size.height),
        ScaleDims::Input => (width, height),
    }
}

/// The size that a pass gives to an image of `width` by `height` pixels.
pub fn dims_from(dims: ScaleDims, width: u32, height: u32) -> (size: (u32, u32))
    ensures
        size == target_dims(dims, width, height),
{
    match dims {
        ScaleDims::Absolute(size) => (size.width, size.height),
        ScaleDims::Input => (width, height),
    }
}

/// The resampling filter behind a named algorithm.
pub open spec fn filter_of(alg: SoftwareScalingAlg) -> Filter {
    match alg {
        SoftwareScalingAlg::Cubic => Filter::CatmullRom,
        SoftwareScalingAlg::Gaussian => Filter::Gaussian,
        SoftwareScalingAlg::Linear => Filter::Triangle,
        SoftwareScalingAlg::Lanczos => Filter::Lanczos3,
        SoftwareScalingAlg::Nearest => Filter::Nearest,
    }
}

/// One scaling pass in software.
#[derive(Clone, Copy, Debug, PartialEq, Eq, Structural)]
pub struct SoftwarePass {
    pub filter: Filter,
    pub dims: ScaleDims,
}

/// One call of the resampler: the new size and the filter.
#[derive(Clone, Copy, Debug, PartialEq, Eq, Structural)]
pub struct ResizeStep {
    pub width: u32,
    pub height: u32,
    pub filter: Filter,
}

impl ResizeStep {
    /// The step can be done on an image of `width` by `height` pixels.
    pub open spec fn is_possible(self, width: u32, height: u32) -> bool {
        resizable(
            width as int,
            height as int,
            self.width as int,
            self.height as int,
            self.filter,
        )
    }

    /// The image `result` is what the step makes of `image`.
    pub open spec fn gives(self, image: Pixels, result: Pixels) -> bool {
        &&& result.width == self.width
        &&& result.height == self.height
        &&& is_resized(image, self.filter, result)
    }
}

impl SoftwarePass {
    /// What the pass does in a scaler that an image of `width` by `height` pixels goes into.
    pub open spec fn step(self, width: u32, height: u32) -> ResizeStep {
        let (new_width, new_height) = target_dims(self.dims, width, height);
        ResizeStep { width: new_width, height: new_height, filter: self.filter }
    }

    fn step_for(&self, width: u32, height: u32) -> (step: ResizeStep)
        ensures
            step == self.step(width, height),
    {
        let (new_width, new_height) = dims_from(self.dims, width, height);
        ResizeStep { width: new_width, height: new_height, filter: self.filter }
    }

    pub fn new(scaling: SoftwareScaling) -> (pass: SoftwarePass)
        ensures
            pass.filter == filter_of(scaling.alg),
            pass.dims == scaling.dims.0,
    {
        SoftwarePass {
            filter: match scaling.alg {
                SoftwareScalingAlg::Cubic => Filter::CatmullRom,
                SoftwareScalingAlg::Gaussian => Filter::Gaussian,
                SoftwareScalingAlg::Linear => Filter::Triangle,
                SoftwareScalingAlg::Lanczos => Filter::Lanczos3,
                SoftwareScalingAlg::Nearest => Filter::Nearest,
            },
            dims: scaling.dims.0,
        }
    }
}

/// Scales images down, and then up again if there is a second pass.
#[derive(Clone, Copy, Debug, PartialEq, Eq, Structural)]
pub struct SoftwareScaler {
    pub down: SoftwarePass,
    pub up: Option<SoftwarePass>,
    /// How many images of a batch may be scaled at the same time.
    pub max_concurrency: u32,
}

impl SoftwareScaler {
    pub fn new(down: SoftwareScaling, up: Option<SoftwareScaling>, max_concurrency: u32) -> (scaler:
        SoftwareScaler)
        ensures
            scaler.down.filter == filter_of(down.alg),
            scaler.down.dims == down.dims.0,
            match up {
                Some(up) => scaler.up matches Some(pass) && pass.filter == filter_of(up.alg)
                    && pass.dims == up.dims.0,
                None => scaler.up is None,
            },
            scaler.max_concurrency == max_concurrency,
    {
        SoftwareScaler {
            down: SoftwarePass::new(down),
            up: match up {
                Some(up) => Some(SoftwarePass::new(up)),
                None => None,
            },
            max_concurrency,
        }
    }

    /// An image of `width` by `height` pixels can go through both passes.
    pub open spec fn accepts(self, width: u32, height: u32) -> bool {
        let down = self.down.step(width, height);
        &&& down.is_possible(width, height)
        &&& self.up matches Some(up) ==> up.step(width, height).is_possible(down.width, down.height)
    }

    /// The size of the result for an image of `width` by `height` pixels. Both passes go by the
    /// size of the image that went in first.
    pub open spec fn result_dims(self, width: u32, height: u32) -> (u32, u32) {
        match self.up {
            Some(up) => target_dims(up.dims, width, height),
            None => target_dims(self.down.dims, width, height),
        }
    }

    /// The image `reduced` is what the first pass makes of `image`, and `result` is what the
    /// second pass, if there is one, makes of `reduced`.
    pub open spec fn scales_through(
        self,
        image: Pixels,
        reduced: Pixels,
        result: Pixels,
    ) -> bool {
        let (width, height) = (image.width as u32, image.height as u32);
        &&& self.down.step(width, height).gives(image, reduced)
        &&& match self.up {
            Some(up) => up.step(width, height).gives(reduced, result),
            None => result == reduced,
        }
    }

    /// The image `result` is what the scaler makes of `image`.
    pub open spec fn scales(self, image: Pixels, result: Pixels) -> bool {
        exists|reduced: Pixels| #[trigger] self.scales_through(image, reduced, result)
    }

    /// The resampling steps that an image of `width` by `height` pixels goes through.
    pub fn passes(&self, width: u32, height: u32) -> (steps: (ResizeStep, Option<ResizeStep>))
        ensures
            steps.0 == self.down.step(width, height),
            steps.1 == match self.up {
                Some(up) => Some(up.step(width, height)),
                None => None,
            },
    {
        (
            self.down.step_for(width, height),
            match self.up {
                Some(up) => Some(up.step_for(width, height)),
                None => None,
            },
        )
    }

    /// Whether an image of `width` by `height` pixels can go through both passes.
    pub fn can_scale(&self, width: u32, height: u32) -> (possible: bool)
        ensures
            possible == self.accepts(width, height),
    {
        let (down, up) = self.passes(width, height);
        if !can_resize(width, height, down.width, down.height, down.filter) {
            return false;
        }
        match up {
            Some(up) => can_resize(down.width, down.height, up.width, up.height, up.filter),
            None => true,
        }
    }

    /// Scales one image: it goes through the steps that `passes` gives for its size.
    pub fn scale_image(&self, image: &RgbImage) -> (result: RgbImage)
        requires
            image.well_formed(),
            self.accepts(image.width, image.height),
        ensures
            result.well_formed(),
            self.scales(image@, result@),
    {
        let (down, up) = self.passes(image.width, image.height);
        let reduced = image.resize(down.width, down.height, down.filter);
        let ghost middle = reduced@;
        let result = match up {
            Some(up) => reduced.resize(up.width, up.height, up.filter),
            None => reduced,
        };
        assert(self.scales_through(image@, middle, result@));
        result
    }

    /// Scales the images of a batch, in order.
    pub fn scale_batch(&self, images: &Vec<RgbImage>) -> (results: Vec<RgbImage>)
        requires
            forall|i: int|
                0 <= i < images@.len() ==> (#[trigger] images@[i]).well_formed() && self.accepts(
                    images@[i].width,
                    images@[i].height,
                ),
        ensures
            results@.len() == images@.len(),
            forall|i: int|
                0 <= i < results@.len() ==> (#[trigger] results@[i]).well_formed() && self.scales(
                    images@[i]@,
                    results@[i]@,
                ),
    {
        let mut results: Vec<RgbImage> = Vec::new();
        let mut i: usize = 0;
        while i < images.len()
            invariant
                i <= images@.len(),
                results@.len() == i,
                forall|k: int|
                    0 <= k < images@.len() ==> (#[trigger] images@[k]).well_formed()
                        && self.accepts(images@[k].width, images@[k].height),
                forall|k: int|
                    0 <= k < results@.len() ==> (#[trigger] results@[k]).well_formed()
                        && self.scales(images@[k]@, results@[k]@),
            decreases images@.len() - i,
        {
            assert(images@[i as int].well_formed());
            results.push(self.scale_image(&images[i]));
            i = i + 1;
        }
        results
    }
}

/// A scaled image has the size that the last pass asks for.
pub proof fn law_result_has_size(scaler: SoftwareScaler, image: Pixels, result: Pixels)
    requires
        scaler.scales(image, result),
    ensures
        result.complete(),
        result.width == scaler.result_dims(image.width as u32, image.height as u32).0,
        result.height == scaler.result_dims(image.width as u32, image.height as u32).1,
{
}

/// A scaler whose passes all keep the size of the input changes nothing.
pub proof fn law_input_size_changes_nothing(
    scaler: SoftwareScaler,
    image: Pixels,
    result: Pixels,
)
    requires
        scaler.down.dims is Input,
        scaler.up matches Some(up) ==> up.dims is Input,
        image.width <= u32::MAX,
        image.height <= u32::MAX,
        scaler.scales(image, result),
    ensures
        result == image,
{
}

/// How many images are scaled at the same time on a machine that can run `parallelism` threads,
/// if that is known: two thirds of them, but at least two.
pub open spec fn concurrency(parallelism: Option<usize>) -> int {
    match parallelism {
        Some(threads) => {
            let share = (threads as u32) * 2 / 3;
            if share <= 2 {
                2
            } else {
                share
            }
        },
        None => 3,
    }
}

/// Twice the number of threads, of which the low bits count, fits in 32 bits.
pub open spec fn is_countable(parallelism: Option<usize>) -> bool {
    parallelism matches Some(threads) ==> (threads as u32) * 2 <= u32::MAX
}

/// Whether `max_concurrency` can be computed for a number of threads.
pub fn has_concurrency(parallelism: Option<usize>) -> (ok: bool)
    ensures
        ok == is_countable(parallelism),
{
    match parallelism {
        Some(threads) => (#[verifier::truncate] (threads as u32)) as u64 * 2 <= u32::MAX as u64,
        None => true,
    }
}

/// How many images are scaled at the same time on a machine that can run `parallelism` threads,
/// if that is known.
pub fn max_concurrency(parallelism: Option<usize>) -> (count: u32)
    requires
        is_countable(parallelism),
    ensures
        count == concurrency(parallelism),
{
    match parallelism {
        Some(threads) => {
            let share: u32 = (#[verifier::truncate] (threads as u32)) * 2 / 3;
            if share <= 2 {
                2
            } else {
                share
            }
        },
        None => 3,
    }
}

/// Where the passes of a scaler run.
#[derive(Clone, Copy, Debug, PartialEq, Eq, Structural)]
pub enum ScalerInner {
    Software(SoftwareScaler),
    Vpss(VpssScaler),
}

/// Cuts images into parts and scales the parts.
#[derive(Clone, Copy, Debug, PartialEq, Eq, Structural)]
pub struct Scaler {
    pub inner: ScalerInner,
    pub crop_mode: Option<CropMode>,
    pub max_concurrency: u32,
}

/// The parts of an image, in order.
#[derive(Debug)]
pub enum Scaled {
    /// The scaled parts.
    Done(Vec<RgbImage>),
    /// The parts as they were cut out. They are to be scaled on the device.
    OnDevice(Vec<RgbImage>),
}

/// What the images show.
pub open spec fn shown(images: Seq<RgbImage>) -> Seq<Pixels> {
    images.map_values(|image: RgbImage| image@)
}

impl Scaler {
    pub fn new(setup: &ScalerSetup, parallelism: Option<usize>) -> (scaler: Scaler)
        requires
            is_countable(parallelism),
        ensures
            scaler.max_concurrency == concurrency(parallelism),
            match setup {
                ScalerSetup::Software { crop_mode, down, up } => {
                    &&& scaler.crop_mode == match crop_mode {
                        Some(mode) => Some(mode.0),
                        None => None,
                    }
                    &&& scaler.inner matches ScalerInner::Software(inner)
                    &&& inner.down.filter == filter_of(down.alg)
                    &&& inner.down.dims == down.dims.0
                    &&& match up {
                        Some(up) => inner.up matches Some(pass) && pass.filter == filter_of(up.alg)
                            && pass.dims == up.dims.0,
                        None => inner.up is None,
                    }
                    &&& inner.max_concurrency == scaler.max_concurrency
                },
                ScalerSetup::Vpss { vdma_device, crop_mode, down, up } => {
                    &&& scaler.crop_mode == match crop_mode {
                        Some(mode) => Some(mode.0),
                        None => None,
                    }
                    &&& scaler.inner matches ScalerInner::Vpss(inner)
                    &&& inner.input_config is None
                    &&& inner.downscale.dims == down.dims.0
                    &&& inner.downscale.nn == down.nn
                    &&& match up {
                        Some(up) => inner.upscale matches Some(scale) && scale.dims == up.dims.0
                            && scale.nn == up.nn,
                        None => inner.upscale is None,
                    }
                },
            },
    {
        let max_concurrency: u32 = max_concurrency(parallelism);
        let (crop_mode, inner) = match setup {
            ScalerSetup::Software { crop_mode, down, up } => (
                crop_mode,
                ScalerInner::Software(SoftwareScaler::new(*down, *up, max_concurrency)),
            ),
            ScalerSetup::Vpss { vdma_device, crop_mode, down, up } => (
                crop_mode,
                ScalerInner::Vpss(VpssScaler::new(down, up)),
            ),
        };
        let crop_mode = match crop_mode {
            Some(mode) => Some(mode.0),
            None => None,
        };
        Scaler { inner, crop_mode, max_concurrency }
    }

    /// How many images should be scaled at the same time.
    pub fn recommended_concurrency(&self) -> (count: u32)
        ensures
            count == self.max_concurrency,
    {
        self.max_concurrency
    }

    /// The parts into which an image is cut.
    pub open spec fn parts(self, image: Pixels) -> Seq<Pixels> {
        match self.crop_mode {
            Some(CropMode::Grid(cells)) => Seq::new(
                (cells.width * cells.height) as nat,
                |k: int| grid_cell(image, cells.width as int, cells.height as int, k),
            ),
            None => seq![image],
        }
    }

    /// An image of `width` by `height` pixels can be cut into parts, and the parts can be
    /// scaled in software if that is where the passes run.
    pub open spec fn accepts(self, width: u32, height: u32) -> bool {
        let (part_width, part_height) = match self.crop_mode {
            Some(CropMode::Grid(cells)) => {
                let side = cell_side(
                    width as int,
                    height as int,
                    cells.width as int,
                    cells.height as int,
                );
                (side as u32, side as u32)
            },
            None => (width, height),
        };
        &&& self.crop_mode matches Some(CropMode::Grid(cells)) ==> {
            &&& 0 < cells.width
            &&& 0 < cells.height
            &&& height * cells.width <= u32::MAX
            &&& width * cells.height <= u32::MAX
        }
        &&& self.inner matches ScalerInner::Software(software) ==> software.accepts(
            part_width,
            part_height,
        )
    }

    /// Whether an image of `width` by `height` pixels can be cut into parts and its parts
    /// scaled.
    pub fn can_run(&self, width: u32, height: u32) -> (possible: bool)
        ensures
            possible == self.accepts(width, height),
    {
        let (part_width, part_height) = match self.crop_mode {
            Some(CropMode::Grid(cells)) => {
                if cells.width == 0 || cells.height == 0 {
                    return false;
                }
                match (height.checked_mul(cells.width), width.checked_mul(cells.height)) {
                    (Some(_), Some(_)) => {},
                    _ => {
                        return false;
                    },
                }
                let grid = Grid::centered(width, height, cells.width, cells.height);
                (grid.side, grid.side)
            },
            None => (width, height),
        };
        match &self.inner {
            ScalerInner::Software(software) => software.can_scale(part_width, part_height),
            ScalerInner::Vpss(_) => true,
        }
    }

    /// Cuts an image into its parts.
    pub fn cut(&self, image: RgbImage) -> (parts: Vec<RgbImage>)
        requires
            image.well_formed(),
            self.accepts(image.width, image.height),
        ensures
            forall|i: int| 0 <= i < parts@.len() ==> (#[trigger] parts@[i]).well_formed(),
            shown(parts@) == self.parts(image@),
    {
        let ghost whole = image@;
        match self.crop_mode {
            Some(CropMode::Grid(cells)) => {
                let parts = make_centered_grid(&image, cells.width, cells.height);
                assert(shown(parts@) =~= self.parts(whole));
                parts
            },
            None => {
                let mut parts: Vec<RgbImage> = Vec::new();
                parts.push(image);
                assert(shown(parts@) =~= self.parts(whole));
                parts
            },
        }
    }

    /// Cuts an image into its parts and scales them, unless they are to be scaled on the
    /// device.
    pub fn run_rgb(&self, image: RgbImage) -> (scaled: Scaled)
        requires
            image.well_formed(),
            self.accepts(image.width, image.height),
        ensures
            self.is_result(image@, scaled),
    {
        let ghost whole = image@;
        let ghost (width, height) = (image.width, image.height);
        let parts = self.cut(image);
        match &self.inner {
            ScalerInner::Software(software) => {
                proof {
                    assert forall|i: int| 0 <= i < parts@.len() implies (
                    #[trigger] parts@[i]).well_formed() && software.accepts(
                        parts@[i].width,
                        parts@[i].height,
                    ) by {
                        assert(parts@[i]@ == shown(parts@)[i]);
                        assert(shown(parts@).len() == self.parts(whole).len());
                        assert(parts@[i]@ == self.parts(whole)[i]);
                        if let Some(CropMode::Grid(cells)) = self.crop_mode {
                            crate::grid::lemma_side_fits(
                                width as int,
                                height as int,
                                cells.width as int,
                                cells.height as int,
                            );
                            crate::grid::lemma_side_bound(
                                width as int,
                                height as int,
                                cells.width as int,
                                cells.height as int,
                            );
                        }
                    }
                }
                let results = software.scale_batch(&parts);
                proof {
                    assert forall|i: int| 0 <= i < results@.len() implies software.scales(
                        self.parts(whole)[i],
                        (#[trigger] results@[i])@,
                    ) by {
                        assert(parts@[i]@ == shown(parts@)[i]);
                    }
                }
                Scaled::Done(results)
            },
            ScalerInner::Vpss(_) => Scaled::OnDevice(parts),
        }
    }

    /// What `run_rgb` makes of an image.
    pub open spec fn is_result(self, image: Pixels, scaled: Scaled) -> bool {
        match self.inner {
            ScalerInner::Software(software) => {
                &&& scaled matches Scaled::Done(results)
                &&& results@.len() == self.parts(image).len()
                &&& forall|i: int|
                    0 <= i < results@.len() ==> (#[trigger] results@[i]).well_formed()
                        && software.scales(self.parts(image)[i], results@[i]@)
            },
            ScalerInner::Vpss(_) => {
                &&& scaled matches Scaled::OnDevice(parts)
                &&& shown(parts@) == self.parts(image)
                &&& forall|i: int| 0 <= i < parts@.len() ==> (#[trigger] parts@[i]).well_formed()
            },
        }
    }

    /// Converts an image to eight-bit RGB, cuts it into its parts and scales them, unless they
    /// are to be scaled on the device. There is no result for an image that does not fit in
    /// memory, that cannot be cut, or with a side of millions of pixels that the resampler cannot be
    /// relied on to sample: `accepts` says which images that leaves.
    pub fn run(&self, image: image::DynamicImage) -> (result: Option<Scaled>)
        ensures
            result is Some <==> fits_rgb8(
                dynamic_width(image) as int,
                dynamic_height(image) as int,
            ) && self.accepts(dynamic_width(image), dynamic_height(image)),
            result matches Some(scaled) ==> self.is_result(dynamic_pixels(image), scaled),
    {
        match RgbImage::from_dynamic(image) {
            Some(rgb) => {
                if self.can_run(rgb.width, rgb.height) {
                    Some(self.run_rgb(rgb))
                } else {
                    None
                }
            },
            None => None,
        }
    }
}

/// An image that is cut into a grid gives as many parts as the grid has cells.
pub proof fn law_one_part_per_cell(scaler: Scaler, image: Pixels, cells: Dims)
    requires
        scaler.crop_mode == Some(CropMode::Grid(cells)),
    ensures
        scaler.parts(image).len() == cells.width * cells.height,
{
    assert(0 <= cells.width * cells.height) by (nonlinear_arith);
}

/// A pass takes an absolute size from the configuration, and otherwise the size of the image that
/// went into the scaler.
pub proof fn law_sizes_come_from_the_configuration(
    dims: ScaleDims,
    width: u32,
    height: u32,
    size: (u32, u32),
)
    requires
        call_ensures(dims_from, (dims, width, height), size),
    ensures
        dims matches ScaleDims::Absolute(told) ==> size.0 == told.width && size.1 == told.height,
        dims is Input ==> size.0 == width && size.1 == height,
{
}

/// A pass has the filter that the algorithm of the configuration names, and its size.
pub proof fn law_passes_have_the_configured_filter(scaling: SoftwareScaling, pass: SoftwarePass)
    requires
        call_ensures(SoftwarePass::new, (scaling,), pass),
    ensures
        pass.dims == scaling.dims.0,
        scaling.alg is Nearest <==> pass.filter is Nearest,
        scaling.alg is Linear <==> pass.filter is Triangle,
        scaling.alg is Cubic <==> pass.filter is CatmullRom,
        scaling.alg is Gaussian <==> pass.filter is Gaussian,
        scaling.alg is Lanczos <==> pass.filter is Lanczos3,
{
}

/// A software scaler has the passes that were configured, the first one first.
pub proof fn law_scalers_have_the_configured_passes(
    down: SoftwareScaling,
    up: Option<SoftwareScaling>,
    max_concurrency: u32,
    scaler: SoftwareScaler,
    first: SoftwarePass,
    second: SoftwarePass,
)
    requires
        call_ensures(SoftwareScaler::new, (down, up, max_concurrency), scaler),
        call_ensures(SoftwarePass::new, (down,), first),
        up matches Some(up) ==> call_ensures(SoftwarePass::new, (up,), second),
    ensures
        scaler.down == first,
        scaler.up is Some <==> up is Some,
        up is Some ==> scaler.up == Some(second),
        scaler.max_concurrency == max_concurrency,
{
}

/// The image `to` is what one pass makes of `from` in a scaler that `first` went into: it has the
/// size that the pass asks for, and it is what the resampler gives for `from` with the filter of
/// the pass.
pub open spec fn is_pass(pass: SoftwarePass, first: Pixels, from: Pixels, to: Pixels) -> bool {
    &&& pass.dims matches ScaleDims::Absolute(size) ==> to.width == size.width && to.height
        == size.height
    &&& pass.dims is Input ==> to.width == first.width && to.height == first.height
    &&& to.bytes.len() == 3 * (to.width * to.height)
    &&& is_outcome(from, pass.filter, to)
    &&& pass.filter is Nearest ==> to.bytes == resampled(
        from.bytes,
        from.width as u32,
        from.height as u32,
        Filter::Nearest,
        to.width as u32,
        to.height as u32,
    )
    &&& pass.filter is Triangle ==> to.bytes == resampled(
        from.bytes,
        from.width as u32,
        from.height as u32,
        Filter::Triangle,
        to.width as u32,
        to.height as u32,
    )
}

/// The image `result` comes out of `image` by the first pass, and then by the second pass if there
/// is one.
pub open spec fn comes_out(scaler: SoftwareScaler, image: Pixels, result: Pixels) -> bool {
    match scaler.up {
        None => is_pass(scaler.down, image, image, result),
        Some(up) => exists|reduced: Pixels| #[trigger]
            is_pass(scaler.down, image, image, reduced) && is_pass(up, image, reduced, result),
    }
}

proof fn lemma_scaled_comes_out(scaler: SoftwareScaler, image: Pixels, result: Pixels)
    requires
        scaler.scales(image, result),
        image.width <= u32::MAX,
        image.height <= u32::MAX,
    ensures
        comes_out(scaler, image, result),
{
    let reduced = choose|reduced: Pixels| #[trigger] scaler.scales_through(image, reduced, result);
    assert(is_pass(scaler.down, image, image, reduced));
}

/// A scaled image is what the resampler gives for the image with the size and the filter of the
/// first pass, and then for that with the size and the filter of the second pass, if there is one.
pub proof fn law_images_go_through_both_passes(
    scaler: SoftwareScaler,
    image: RgbImage,
    result: RgbImage,
)
    requires
        call_ensures(SoftwareScaler::scale_image, (&scaler, &image), result),
    ensures
        comes_out(scaler, image@, result@),
        result.data@.len() == 3 * (result.width * result.height),
{
    lemma_scaled_comes_out(scaler, image@, result@);
}

/// The results of a batch stand in the order of its images, and each of them went through both
/// passes.
pub proof fn law_batches_go_through_both_passes(
    scaler: SoftwareScaler,
    images: Vec<RgbImage>,
    results: Vec<RgbImage>,
    i: int,
)
    requires
        call_ensures(SoftwareScaler::scale_batch, (&scaler, &images), results),
        0 <= i < images@.len(),
    ensures
        results@.len() == images@.len(),
        comes_out(scaler, images@[i]@, results@[i]@),
        results@[i].data@.len() == 3 * (results@[i].width * results@[i].height),
{
    assert(results@[i].well_formed());
    lemma_scaled_comes_out(scaler, images@[i]@, results@[i]@);
}

/// The steps of a scaler are those of its passes, by size and by filter.
pub proof fn law_steps_are_those_of_the_passes(
    scaler: SoftwareScaler,
    width: u32,
    height: u32,
    steps: (ResizeStep, Option<ResizeStep>),
)
    requires
        call_ensures(SoftwareScaler::passes, (&scaler, width, height), steps),
    ensures
        steps.0.filter == scaler.down.filter,
        scaler.down.dims matches ScaleDims::Absolute(size) ==> steps.0.width == size.width
            && steps.0.height == size.height,
        scaler.down.dims is Input ==> steps.0.width == width && steps.0.height == height,
        steps.1 is Some <==> scaler.up is Some,
        scaler.up matches Some(up) ==> {
            let step = steps.1->Some_0;
            &&& step.filter == up.filter
            &&& up.dims matches ScaleDims::Absolute(size) ==> step.width == size.width
                && step.height == size.height
            &&& up.dims is Input ==> step.width == width && step.height == height
        },
{
}

/// A scaler can do both of its passes if and only if the resampler can do each of its steps.
pub proof fn law_scaling_needs_both_steps(
    scaler: SoftwareScaler,
    width: u32,
    height: u32,
    steps: (ResizeStep, Option<ResizeStep>),
    possible: bool,
    first: bool,
    second: bool,
)
    requires
        call_ensures(SoftwareScaler::passes, (&scaler, width, height), steps),
        call_ensures(SoftwareScaler::can_scale, (&scaler, width, height), possible),
        call_ensures(
            can_resize,
            (width, height, steps.0.width, steps.0.height, steps.0.filter),
            first,
        ),
        steps.1 matches Some(up) ==> call_ensures(
            can_resize,
            (steps.0.width, steps.0.height, up.width, up.height, up.filter),
            second,
        ),
    ensures
        possible <==> first && (steps.1 is Some ==> second),
{
}

/// Two thirds of the threads, rounded down, scale images at the same time, but at least two, and
/// three if the number of threads is not known.
pub proof fn law_two_thirds_of_the_threads_scale(parallelism: Option<usize>, count: u32)
    requires
        call_ensures(max_concurrency, (parallelism,), count),
    ensures
        count >= 2,
        parallelism is None ==> count == 3,
        parallelism matches Some(threads) && threads < 0x8000_0000 ==> {
            &&& count > 2 ==> 3 * count <= 2 * parallelism->Some_0
            &&& 3 * (count + 1) > 2 * parallelism->Some_0
        },
{
}

/// Every number of threads below 2147483648 can be counted.
pub proof fn law_usual_numbers_of_threads_count(parallelism: Option<usize>, ok: bool)
    requires
        call_ensures(has_concurrency, (parallelism,), ok),
        parallelism matches Some(threads) ==> threads < 0x8000_0000,
    ensures
        ok,
{
}

/// A scaler scales where the configuration says, with the stages and the crop mode that it names.
pub proof fn law_scalers_follow_the_setup(
    setup: ScalerSetup,
    parallelism: Option<usize>,
    scaler: Scaler,
    count: u32,
    told: u32,
)
    requires
        call_ensures(Scaler::new, (&setup, parallelism), scaler),
        call_ensures(max_concurrency, (parallelism,), count),
        call_ensures(Scaler::recommended_concurrency, (&scaler,), told),
    ensures
        told == count,
        scaler.inner is Software <==> setup is Software,
        match setup {
            ScalerSetup::Software { crop_mode, down, up } => {
                let inner = scaler.inner->Software_0;
                &&& scaler.crop_mode is Some <==> crop_mode is Some
                &&& crop_mode is Some ==> scaler.crop_mode == Some(crop_mode->Some_0.0)
                &&& inner.max_concurrency == count
                &&& inner.down.dims == down.dims.0
                &&& down.alg is Nearest <==> inner.down.filter is Nearest
                &&& down.alg is Linear <==> inner.down.filter is Triangle
                &&& down.alg is Cubic <==> inner.down.filter is CatmullRom
                &&& down.alg is Gaussian <==> inner.down.filter is Gaussian
                &&& inner.up is Some <==> up is Some
                &&& up is Some ==> {
                    let (pass, scaling) = (inner.up->Some_0, up->Some_0);
                    &&& pass.dims == scaling.dims.0
                    &&& scaling.alg is Nearest <==> pass.filter is Nearest
                    &&& scaling.alg is Linear <==> pass.filter is Triangle
                    &&& scaling.alg is Cubic <==> pass.filter is CatmullRom
                    &&& scaling.alg is Gaussian <==> pass.filter is Gaussian
                }
            },
            ScalerSetup::Vpss { vdma_device, crop_mode, down, up } => {
                let inner = scaler.inner->Vpss_0;
                &&& scaler.crop_mode is Some <==> crop_mode is Some
                &&& crop_mode is Some ==> scaler.crop_mode == Some(crop_mode->Some_0.0)
                &&& inner.input_config is None
                &&& inner.downscale.dims == down.dims.0
                &&& inner.downscale.nn == down.nn
                &&& inner.upscale is Some <==> up is Some
                &&& up is Some ==> inner.upscale->Some_0.dims == up->Some_0.dims.0
                    && inner.upscale->Some_0.nn == up->Some_0.nn
            },
        },
{
}

/// Without a crop mode an image is its own only part, and with a grid its parts are the cells that
/// the grid cuts out of it, in their order.
pub proof fn law_parts_are_the_cells(
    scaler: Scaler,
    image: RgbImage,
    parts: Vec<RgbImage>,
    cells: Vec<RgbImage>,
    i: int,
)
    requires
        call_ensures(Scaler::cut, (&scaler, image), parts),
        scaler.crop_mode matches Some(CropMode::Grid(size)) ==> call_ensures(
            make_centered_grid,
            (&image, size.width, size.height),
            cells,
        ),
        0 <= i < parts@.len(),
    ensures
        scaler.crop_mode is None ==> parts@.len() == 1 && parts@[0]@ == image@,
        scaler.crop_mode is Some ==> parts@.len() == cells@.len() && parts@[i]@ == cells@[i]@,
{
    assert(shown(parts@).len() == scaler.parts(image@).len());
    assert(parts@[i]@ == shown(parts@)[i]);
    assert(parts@[0]@ == shown(parts@)[0]);
    if let Some(CropMode::Grid(size)) = scaler.crop_mode {
        assert(0 <= size.width * size.height) by (nonlinear_arith);
        assert(cells@[i]@ == grid_cell(image@, size.width as int, size.height as int, i));
    }
}

/// An image is cut as its crop mode says. On the device nothing is scaled yet, and in software every
/// part goes through both passes, in order.
pub proof fn law_run_scales_every_part(
    scaler: Scaler,
    image: RgbImage,
    parts: Vec<RgbImage>,
    scaled: Scaled,
    i: int,
)
    requires
        call_ensures(Scaler::run_rgb, (&scaler, image), scaled),
        call_ensures(Scaler::cut, (&scaler, image), parts),
        0 <= i < parts@.len(),
    ensures
        scaler.inner is Vpss <==> scaled is OnDevice,
        scaler.inner is Vpss ==> scaled->OnDevice_0@.len() == parts@.len()
            && scaled->OnDevice_0@[i]@ == parts@[i]@,
        scaler.inner is Software ==> scaled->Done_0@.len() == parts@.len() && comes_out(
            scaler.inner->Software_0,
            parts@[i]@,
            scaled->Done_0@[i]@,
        ),
{
    assert(shown(parts@).len() == scaler.parts(image@).len());
    assert(parts@[i]@ == shown(parts@)[i]);
    match scaled {
        Scaled::OnDevice(same) => {
            assert(shown(same@).len() == scaler.parts(image@).len());
            assert(same@[i]@ == shown(same@)[i]);
        },
        Scaled::Done(results) => {
            assert(results@[i].well_formed());
            lemma_scaled_comes_out(scaler.inner->Software_0, parts@[i]@, results@[i]@);
        },
    }
}

/// An image of any pixel format is scaled as the eight-bit RGB image that shows the same, if it
/// fits in memory and can be scaled.
pub proof fn law_run_converts_first(
    scaler: Scaler,
    image: image::DynamicImage,
    rgb: RgbImage,
    possible: bool,
    parts: Vec<RgbImage>,
    result: Option<Scaled>,
    i: int,
)
    requires
        call_ensures(Scaler::run, (&scaler, image), result),
        rgb.width == dynamic_width(image),
        rgb.height == dynamic_height(image),
        rgb.data@ == dynamic_rgb8(image),
        call_ensures(Scaler::can_run, (&scaler, rgb.width, rgb.height), possible),
        call_ensures(Scaler::cut, (&scaler, rgb), parts),
    ensures
        result is Some <==> possible && 3 * (dynamic_width(image) * dynamic_height(image))
            <= isize::MAX,
        result matches Some(scaled) ==> (scaled is OnDevice <==> scaler.inner is Vpss),
        result matches Some(Scaled::OnDevice(same)) ==> same@.len() == parts@.len() && (0 <= i
            < parts@.len() ==> same@[i]@ == parts@[i]@),
        result matches Some(Scaled::Done(results)) ==> results@.len() == parts@.len() && (0 <= i
            < parts@.len() ==> comes_out(
            scaler.inner->Software_0,
            parts@[i]@,
            results@[i]@,
        )),
{
    assert(dynamic_pixels(image) == rgb@);
    assert(shown(parts@).len() == scaler.parts(rgb@).len());
    if 0 <= i < parts@.len() {
        assert(parts@[i]@ == shown(parts@)[i]);
    }
    if let Some(Scaled::OnDevice(same)) = result {
        assert(shown(same@).len() == shown(parts@).len());
        if 0 <= i < same@.len() {
            assert(same@[i]@ == shown(same@)[i]);
        }
    }
    if let Some(Scaled::Done(results)) = result {
        if 0 <= i < results@.len() {
            assert(results@[i].well_formed());
            lemma_scaled_comes_out(scaler.inner->Software_0, parts@[i]@, results@[i]@);
        }
    }
}

/// Images can be cut by a grid that has cells along both axes, if the products of the sides of the
/// image and the cells fit in 32 bits, and by no other grid. Nothing else stands in the way of
/// scaling on the device, and of scaling in software only what stands in the way of the parts.
pub proof fn law_runs_are_possible(
    scaler: Scaler,
    width: u32,
    height: u32,
    side: u32,
    possible: bool,
    part: bool,
)
    requires
        call_ensures(Scaler::can_run, (&scaler, width, height), possible),
        match scaler.crop_mode {
            None => scaler.inner matches ScalerInner::Software(software) ==> call_ensures(
                SoftwareScaler::can_scale,
                (&software, width, height),
                part,
            ),
            Some(CropMode::Grid(size)) => {
                &&& size.width * side <= width
                &&& size.height * side <= height
                &&& size.width * (side + 1) > width || size.height * (side + 1) > height
                &&& scaler.inner matches ScalerInner::Software(software) ==> call_ensures(
                    SoftwareScaler::can_scale,
                    (&software, side, side),
                    part,
                )
            },
        },
    ensures
        possible <==> {
            &&& scaler.crop_mode matches Some(CropMode::Grid(size)) ==> size.width > 0
                && size.height > 0 && height * size.width <= u32::MAX && width * size.height
                <= u32::MAX
            &&& scaler.inner is Software ==> part
        },
{
    if let Some(CropMode::Grid(size)) = scaler.crop_mode {
        if size.width > 0 && size.height > 0 {
            let (x, y) = (size.width as int, size.height as int);
            crate::grid::lemma_side_fits(width as int, height as int, x, y);
            crate::grid::law_cells_are_largest(width as int, height as int, x, y, side as int);
            let largest = cell_side(width as int, height as int, x, y);
            if side < largest {
                assert(x * (side + 1) <= x * largest && y * (side + 1) <= y * largest)
                    by (nonlinear_arith)
                    requires
                        side + 1 <= largest,
                        0 < x,
                        0 < y,
                ;
            }
        }
    }
}

/// An image that holds its pixels and can be scaled is scaled, alone or in a batch.
pub proof fn law_images_that_can_be_scaled_are_scaled(
    scaler: SoftwareScaler,
    image: RgbImage,
    images: Vec<RgbImage>,
    possible: bool,
)
    requires
        call_ensures(SoftwareScaler::can_scale, (&scaler, image.width, image.height), possible),
        possible,
        image.data@.len() == 3 * (image.width * image.height),
        forall|i: int| 0 <= i < images@.len() ==> #[trigger] images@[i] == image,
    ensures
        call_requires(SoftwareScaler::scale_image, (&scaler, &image)),
        call_requires(SoftwareScaler::scale_batch, (&scaler, &images)),
{
}

/// An image that holds its pixels and can be run is cut and scaled.
pub proof fn law_images_that_can_be_run_are_run(scaler: Scaler, image: RgbImage, possible: bool)
    requires
        call_ensures(Scaler::can_run, (&scaler, image.width, image.height), possible),
        possible,
        image.data@.len() == 3 * (image.width * image.height),
    ensures
        call_requires(Scaler::cut, (&scaler, image)),
        call_requires(Scaler::run_rgb, (&scaler, image)),
{
}

} // verus!
