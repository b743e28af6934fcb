//! Scaling on a video processing subsystem that is fed through a video DMA device.
use vstd::prelude::*;

use crate::config::{ScaleDims, VpssScaling};
use crate::raster::RgbImage;
use crate::scaler::{dims_from, target_dims};

verus! {

/// Size of the frames on one side of a scaling stage. The frames are eight-bit RGB.
#[derive(Clone, Copy, Debug, PartialEq, Eq, Structural)]
pub struct FrameConfig {
    pub width: u16,
    pub height: u16,
}

/// A size that does not fit in a frame configuration.
#[derive(Clone, Copy, Debug, PartialEq, Eq, Structural)]
pub enum FrameOverflow {
    Width,
    Height,
}

/// The frame configuration for a size, or what of the size is too large.
pub open spec fn frame_config(width: u32, height: u32) -> Result<FrameConfig, FrameOverflow> {
    if width > u16::MAX {
        Err(FrameOverflow::Width)
    } else if height > u16::MAX {
        Err(FrameOverflow::Height)
    } else {
        Ok(FrameConfig { width: width as u16, height: height as u16 })
    }
}

impl FrameConfig {
    /// The frame configuration for a size.
    pub fn for_size(width: u32, height: u32) -> (config: Result<FrameConfig, FrameOverflow>)
        ensures
            config == frame_config(width, height),
    {
        if width > u16::MAX as u32 {
            Err(FrameOverflow::Width)
        } else if height > u16::MAX as u32 {
            Err(FrameOverflow::Height)
        } else {
            Ok(FrameConfig { width: width as u16, height: height as u16 })
        }
    }
}

/// One scaling stage of the subsystem.
#[derive(Clone, Copy, Debug, PartialEq, Eq, Structural)]
pub struct VpssScale {
    pub dims: ScaleDims,
    /// Take the nearest neighbor instead of a filter.
    pub nn: bool,
}

impl VpssScale {
    pub fn new(scaling: &VpssScaling) -> (scale: VpssScale)
        ensures
            scale.dims == scaling.dims.0,
            scale.nn == scaling.nn,
    {
        VpssScale { dims: scaling.dims.0, nn: scaling.nn }
    }

    /// The configuration of the frames that this stage puts out for an image.
    pub open spec fn output(self, width: u32, height: u32) -> Result<FrameConfig, FrameOverflow> {
        let (out_width, out_height) = target_dims(self.dims, width, height);
        frame_config(out_width, out_height)
    }

    /// The configuration of the frames that this stage puts out for an image of `width` by
    /// `height` pixels.
    pub fn cfg_for(&self, width: u32, height: u32) -> (config: Result<FrameConfig, FrameOverflow>)
        ensures
            config == self.output(width, height),
    {
        let (out_width, out_height) = dims_from(self.dims, width, height);
        FrameConfig::for_size(out_width, out_height)
    }
}

/// A subsystem with one or two scaling stages.
#[derive(Clone, Copy, Debug, PartialEq, Eq, Structural)]
pub struct VpssScaler {
    /// The frames for which the pipeline is set up. It is set on the fly, by the images.
    pub input_config: Option<FrameConfig>,
    pub downscale: VpssScale,
    pub upscale: Option<VpssScale>,
}

impl VpssScaler {
    pub fn new(downscale: &VpssScaling, upscale: &Option<VpssScaling>) -> (scaler: VpssScaler)
        ensures
            scaler.input_config is None,
            scaler.downscale.dims == downscale.dims.0,
            scaler.downscale.nn == downscale.nn,
            match upscale {
                Some(up) => scaler.upscale matches Some(scale) && scale.dims == up.dims.0
                    && scale.nn == up.nn,
                None => scaler.upscale is None,
            },
    {
        VpssScaler {
            input_config: None,
            downscale: VpssScale::new(downscale),
            upscale: match upscale {
                Some(up) => Some(VpssScale::new(up)),
                None => None,
            },
        }
    }
}

/// What is to be done next with a frame that goes through the pipeline.
#[derive(Clone, Copy, Debug, PartialEq, Eq, Structural)]
pub enum FrameAction {
    /// Make the geometry of the input frames, given by the bytes of a line and the lines.
    MakeGeometry { line_bytes: u32, lines: u32 },
    /// Give the new geometry to the DMA device.
    SetGeometry,
    /// Set up the first stage.
    ConfigureDown { input: FrameConfig, output: FrameConfig, nn: bool },
    /// Set up the second stage.
    ConfigureUp { input: FrameConfig, output: FrameConfig, nn: bool },
    /// Write the frame to the DMA device.
    WriteFrame,
    /// Read the scaled frame back.
    ReadFrame,
    /// The scaled frame is there.
    Finish,
    /// Give the frame up.
    Fail(FrameError),
}

/// Why a frame could not be scaled.
#[derive(Clone, Copy, Debug, PartialEq, Eq, Structural)]
pub enum FrameError {
    /// The input image has an unsupported geometry.
    Geometry,
    /// The input image is too large for a frame configuration.
    InputOverflow(FrameOverflow),
    /// The geometry could not be set.
    SetGeometry,
    /// The result of a stage is too large for a frame configuration.
    OutputOverflow(FrameOverflow),
    /// The first stage could not be set up.
    Downscaler,
    /// The second stage could not be set up.
    Upscaler,
    /// The frame could not be written.
    Write,
    /// The scaled frame could not be read back.
    Read,
}

/// The pipeline has to be set up anew for an image that differs in its width or in its height from
/// the frames for which it is set up.
pub open spec fn is_stale(config: FrameConfig, width: u32, height: u32) -> bool {
    config.width != width || config.height != height
}

impl VpssScaler {
    /// The pipeline is set up for images of this size.
    pub open spec fn is_ready(self, width: u32, height: u32) -> bool {
        self.input_config matches Some(config) && !is_stale(config, width, height)
    }

    /// Size of the scaled frame for an image of `width` by `height` pixels.
    pub open spec fn result_dims(self, width: u32, height: u32) -> (u32, u32) {
        match self.upscale {
            Some(up) => target_dims(up.dims, width, height),
            None => target_dims(self.downscale.dims, width, height),
        }
    }

    /// Size of the scaled frame for an image of `width` by `height` pixels.
    pub fn output_dims(&self, width: u32, height: u32) -> (size: (u32, u32))
        ensures
            size == self.result_dims(width, height),
    {
        match &self.upscale {
            Some(up) => dims_from(up.dims, width, height),
            None => dims_from(self.downscale.dims, width, height),
        }
    }

    /// The setting of the first stage for an image, or why there is none.
    pub open spec fn down_action(self, width: u32, height: u32) -> FrameAction {
        match frame_config(width, height) {
            Err(overflow) => FrameAction::Fail(FrameError::InputOverflow(overflow)),
            Ok(input) => match self.downscale.output(width, height) {
                Err(overflow) => FrameAction::Fail(FrameError::OutputOverflow(overflow)),
                Ok(output) => match self.up_action(width, height) {
                    Some(FrameAction::Fail(error)) => FrameAction::Fail(error),
                    _ => FrameAction::ConfigureDown { input, output, nn: self.downscale.nn },
                },
            },
        }
    }

    /// The setting of the second stage for an image, if there is a second stage, or why there
    /// is none.
    pub open spec fn up_action(self, width: u32, height: u32) -> Option<FrameAction> {
        match self.upscale {
            None => None,
            Some(up) => match (
                self.downscale.output(width, height),
                up.output(width, height),
            ) {
                (Ok(input), Ok(output)) => Some(
                    FrameAction::ConfigureUp { input, output, nn: up.nn },
                ),
                (Err(overflow), _) => Some(FrameAction::Fail(FrameError::OutputOverflow(overflow))),
                (_, Err(overflow)) => Some(FrameAction::Fail(FrameError::OutputOverflow(overflow))),
            },
        }
    }

    /// The error when `action` could not be done.
    pub open spec fn failure(action: FrameAction) -> FrameError {
        match action {
            FrameAction::MakeGeometry { .. } => FrameError::Geometry,
            FrameAction::SetGeometry => FrameError::SetGeometry,
            FrameAction::ConfigureDown { .. } => FrameError::Downscaler,
            FrameAction::ConfigureUp { .. } => FrameError::Upscaler,
            FrameAction::WriteFrame => FrameError::Write,
            FrameAction::ReadFrame => FrameError::Read,
            FrameAction::Finish => FrameError::Read,
            FrameAction::Fail(error) => error,
        }
    }

    /// What follows `action` once it is done.
    pub open spec fn successor(self, action: FrameAction, width: u32, height: u32) -> FrameAction {
        match action {
            FrameAction::MakeGeometry { .. } => match frame_config(width, height) {
                Ok(_) => FrameAction::SetGeometry,
                Err(overflow) => FrameAction::Fail(FrameError::InputOverflow(overflow)),
            },
            FrameAction::SetGeometry => self.down_action(width, height),
            FrameAction::ConfigureDown { .. } => match self.up_action(width, height) {
                Some(up) => up,
                None => FrameAction::WriteFrame,
            },
            FrameAction::ConfigureUp { .. } => FrameAction::WriteFrame,
            FrameAction::WriteFrame => FrameAction::ReadFrame,
            FrameAction::ReadFrame => FrameAction::Finish,
            FrameAction::Finish => FrameAction::Finish,
            FrameAction::Fail(error) => FrameAction::Fail(error),
        }
    }

    /// The last stage has been set up by `action`.
    pub open spec fn completes_setup(self, action: FrameAction) -> bool {
        match action {
            FrameAction::ConfigureDown { .. } => self.upscale is None,
            FrameAction::ConfigureUp { .. } => true,
            _ => false,
        }
    }

    /// For which frames the pipeline is set up after `done` was tried.
    pub open spec fn config_after(
        self,
        done: FrameAction,
        succeeded: bool,
        width: u32,
        height: u32,
    ) -> Option<FrameConfig> {
        match frame_config(width, height) {
            Ok(config) if succeeded && self.completes_setup(done) => Some(config),
            _ => self.input_config,
        }
    }

    /// Begins with an image of `width` by `height` pixels. A pipeline that is not set up for
    /// such an image is set up first.
    pub fn begin_frame(&mut self, width: u32, height: u32, pixel_bytes: u32) -> (action:
        FrameAction)
        requires
            !old(self).is_ready(width, height) ==> width * pixel_bytes <= u32::MAX,
        ensures
            final(self).downscale == old(self).downscale,
            final(self).upscale == old(self).upscale,
            final(self).input_config == if old(self).is_ready(width, height) {
                old(self).input_config
            } else {
                None
            },
            action == if old(self).is_ready(width, height) {
                FrameAction::WriteFrame
            } else {
                FrameAction::MakeGeometry {
                    line_bytes: (width * pixel_bytes) as u32,
                    lines: height,
                }
            },
    {
        if let Some(config) = self.input_config {
            if config.width as u32 != width || config.height as u32 != height {
                self.input_config = None;
            }
        }
        if self.input_config.is_some() {
            return FrameAction::WriteFrame;
        }
        FrameAction::MakeGeometry { line_bytes: width * pixel_bytes, lines: height }
    }

    /// Takes note that `done` was done for an image of `width` by `height` pixels, or that it
    /// failed, and tells what comes next.
    pub fn next_action(&mut self, done: FrameAction, succeeded: bool, width: u32, height: u32) -> (
        action: FrameAction)
        ensures
            final(self).downscale == old(self).downscale,
            final(self).upscale == old(self).upscale,
            action == if succeeded {
                old(self).successor(done, width, height)
            } else {
                FrameAction::Fail(VpssScaler::failure(done))
            },
            final(self).input_config == old(self).config_after(done, succeeded, width, height),
    {
        if !succeeded {
            return match done {
                FrameAction::MakeGeometry { .. } => FrameAction::Fail(FrameError::Geometry),
                FrameAction::SetGeometry => FrameAction::Fail(FrameError::SetGeometry),
                FrameAction::ConfigureDown { .. } => FrameAction::Fail(FrameError::Downscaler),
                FrameAction::ConfigureUp { .. } => FrameAction::Fail(FrameError::Upscaler),
                FrameAction::WriteFrame => FrameAction::Fail(FrameError::Write),
                FrameAction::ReadFrame => FrameAction::Fail(FrameError::Read),
                FrameAction::Finish => FrameAction::Fail(FrameError::Read),
                FrameAction::Fail(error) => FrameAction::Fail(error),
            };
        }
        match done {
            FrameAction::MakeGeometry { .. } => match FrameConfig::for_size(width, height) {
                Ok(_) => FrameAction::SetGeometry,
                Err(overflow) => FrameAction::Fail(FrameError::InputOverflow(overflow)),
            },
            FrameAction::SetGeometry => self.configure_down(width, height),
            FrameAction::ConfigureDown { .. } => match self.configure_up(width, height) {
                Some(up) => up,
                None => {
                    self.set_ready(width, height);
                    FrameAction::WriteFrame
                },
            },
            FrameAction::ConfigureUp { .. } => {
                self.set_ready(width, height);
                FrameAction::WriteFrame
            },
            FrameAction::WriteFrame => FrameAction::ReadFrame,
            FrameAction::ReadFrame => FrameAction::Finish,
            FrameAction::Finish => FrameAction::Finish,
            FrameAction::Fail(error) => FrameAction::Fail(error),
        }
    }

    fn configure_down(&self, width: u32, height: u32) -> (action: FrameAction)
        ensures
            action == self.down_action(width, height),
    {
        let input = match FrameConfig::for_size(width, height) {
            Ok(input) => input,
            Err(overflow) => {
                return FrameAction::Fail(FrameError::InputOverflow(overflow));
            },
        };
        let output = match self.downscale.cfg_for(width, height) {
            Ok(output) => output,
            Err(overflow) => {
                return FrameAction::Fail(FrameError::OutputOverflow(overflow));
            },
        };
        match self.configure_up(width, height) {
            Some(FrameAction::Fail(error)) => FrameAction::Fail(error),
            _ => FrameAction::ConfigureDown { input, output, nn: self.downscale.nn },
        }
    }

    fn configure_up(&self, width: u32, height: u32) -> (action: Option<FrameAction>)
        ensures
            action == self.up_action(width, height),
    {
        match &self.upscale {
            None => None,
            Some(up) => match (self.downscale.cfg_for(width, height), up.cfg_for(width, height)) {
                (Ok(input), Ok(output)) => Some(
                    FrameAction::ConfigureUp { input, output, nn: up.nn },
                ),
                (Err(overflow), _) => Some(FrameAction::Fail(FrameError::OutputOverflow(overflow))),
                (_, Err(overflow)) => Some(FrameAction::Fail(FrameError::OutputOverflow(overflow))),
            },
        }
    }

    fn set_ready(&mut self, width: u32, height: u32)
        ensures
            final(self).downscale == old(self).downscale,
            final(self).upscale == old(self).upscale,
            final(self).input_config == match frame_config(width, height) {
                Ok(config) => Some(config),
                Err(_) => old(self).input_config,
            },
    {
        if let Ok(config) = FrameConfig::for_size(width, height) {
            self.input_config = Some(config);
        }
    }

    /// Turns the buffer of an image into one for its scaled frame. What both have room for stays
    /// as it is, and the rest is zero.
    pub fn frame_buffer(&self, image: RgbImage) -> (buffer: Vec<u8>)
        requires
            ({
                let (width, height) = self.result_dims(image.width, image.height);
                width * height * 3 <= u32::MAX
            }),
        ensures
            ({
                let (width, height) = self.result_dims(image.width, image.height);
                &&& buffer@.len() == 3 * (width * height)
                &&& forall|k: int|
                    0 <= k < buffer@.len() ==> #[trigger] buffer@[k] == if k < image.data@.len() {
                        image.data@[k]
                    } else {
                        0
                    }
            }),
    {
        let (width, height) = self.output_dims(image.width, image.height);
        proof {
            assert(width * height <= width * height * 3);
            assert(0 <= width * height) by (nonlinear_arith);
        }
        let size: u32 = width * height * 3;
        let mut buffer = image.data;
        let ghost before = buffer@;
        buffer.resize(size as usize, 0);
        proof {
            assert forall|k: int| 0 <= k < buffer@.len() implies #[trigger] buffer@[k] == if k
                < before.len() {
                before[k]
            } else {
                0
            } by {
                if size > before.len() && k < before.len() {
                    assert(buffer@.subrange(0, before.len() as int)[k] == before[k]);
                }
            }
        }
        buffer
    }
}

/// What a frame goes through, in order, when nothing fails.
pub open spec fn frame_plan(
    scaler: VpssScaler,
    width: u32,
    height: u32,
    pixel_bytes: u32,
) -> Seq<FrameAction> {
    let transfer = seq![FrameAction::WriteFrame, FrameAction::ReadFrame, FrameAction::Finish];
    if scaler.is_ready(width, height) {
        transfer
    } else {
        let geometry = FrameAction::MakeGeometry {
            line_bytes: (width * pixel_bytes) as u32,
            lines: height,
        };
        let first = seq![geometry, FrameAction::SetGeometry, scaler.down_action(width, height)];
        match scaler.up_action(width, height) {
            Some(up) => first + seq![up] + transfer,
            None => first + transfer,
        }
    }
}

/// A frame that meets no failure is written and read back once, and the pipeline is set up before
/// that only where it has to be: first the geometry, then the first stage, then the second.
pub proof fn law_frame_plan(
    scaler: VpssScaler,
    width: u32,
    height: u32,
    pixel_bytes: u32,
    k: int,
)
    requires
        scaler.is_ready(width, height) || !(scaler.down_action(width, height) is Fail),
        0 <= k < frame_plan(scaler, width, height, pixel_bytes).len() - 1,
    ensures
        scaler.successor(frame_plan(scaler, width, height, pixel_bytes)[k], width, height)
            == frame_plan(scaler, width, height, pixel_bytes)[k + 1],
        !(frame_plan(scaler, width, height, pixel_bytes)[k + 1] is Fail),
{
}

/// What holds while an image of `width` by `height` pixels goes through the pipeline: up to the
/// last stage's setting the pipeline counts as not set up, and from the transfer on it is set up
/// for frames of exactly this size.
pub open spec fn in_step(
    scaler: VpssScaler,
    action: FrameAction,
    width: u32,
    height: u32,
) -> bool {
    match action {
        FrameAction::MakeGeometry { .. } => scaler.input_config is None,
        FrameAction::SetGeometry | FrameAction::ConfigureDown { .. } | FrameAction::ConfigureUp {
            ..
        } => scaler.input_config is None && frame_config(width, height) is Ok,
        FrameAction::WriteFrame
        | FrameAction::ReadFrame
        | FrameAction::Finish
        | FrameAction::Fail(FrameError::Write)
        | FrameAction::Fail(FrameError::Read) => {
            &&& frame_config(width, height) is Ok
            &&& scaler.input_config == Some(frame_config(width, height)->Ok_0)
        },
        FrameAction::Fail(_) => scaler.input_config is None,
    }
}

/// The pipeline is ready for an image if and only if it is set up for frames of the size of the
/// image.
pub proof fn law_setup_serves_its_size(scaler: VpssScaler, width: u32, height: u32)
    ensures
        scaler.is_ready(width, height) <==> frame_config(width, height) is Ok
            && scaler.input_config == Some(frame_config(width, height)->Ok_0),
{
}

/// A frame begins with its transfer only in a pipeline that is set up for its size.
pub proof fn law_frames_begin_in_step(
    before: VpssScaler,
    width: u32,
    height: u32,
    pixel_bytes: u32,
    after: VpssScaler,
)
    requires
        after.input_config == if before.is_ready(width, height) {
            before.input_config
        } else {
            None
        },
    ensures
        in_step(after, frame_plan(before, width, height, pixel_bytes)[0], width, height),
{
}

/// A frame is written and read back only while the pipeline is set up for its size, and a pipeline
/// whose setup failed is set up anew for the next frame.
pub proof fn law_frames_stay_in_step(
    before: VpssScaler,
    done: FrameAction,
    succeeded: bool,
    width: u32,
    height: u32,
    after: VpssScaler,
    action: FrameAction,
)
    requires
        in_step(before, done, width, height),
        !(done is Finish),
        !(done is Fail),
        after.input_config == before.config_after(done, succeeded, width, height),
        action == if succeeded {
            before.successor(done, width, height)
        } else {
            FrameAction::Fail(VpssScaler::failure(done))
        },
    ensures
        in_step(after, action, width, height),
{
}

/// The second stage takes in what the first one gives out, and both are set up for the image
/// that is to be scaled.
pub proof fn law_stages_fit(scaler: VpssScaler, width: u32, height: u32)
    requires
        scaler.upscale is Some,
        !(scaler.down_action(width, height) is Fail),
    ensures
        scaler.down_action(width, height) is ConfigureDown,
        scaler.up_action(width, height) is Some,
        scaler.up_action(width, height)->Some_0 is ConfigureUp,
        scaler.up_action(width, height)->Some_0->ConfigureUp_input
            == scaler.down_action(width, height)->ConfigureDown_output,
        frame_config(width, height) is Ok,
        scaler.down_action(width, height)->ConfigureDown_input
            == frame_config(width, height)->Ok_0,
        scaler.up_action(width, height)->Some_0->ConfigureUp_output.width as u32
            == scaler.result_dims(width, height).0,
        scaler.up_action(width, height)->Some_0->ConfigureUp_output.height as u32
            == scaler.result_dims(width, height).1,
{
}

/// A batch of images on its way through the pipeline.
#[derive(Debug)]
pub struct VpssBatch {
    pub scaler: VpssScaler,
    /// The scaled images, in the order of the batch.
    pub results: Vec<RgbImage>,
    /// The images that are not scaled yet. The last of them is the current one.
    pub waiting: Vec<RgbImage>,
    /// What is to be done next.
    pub action: FrameAction,
}

/// The geometry for an image can be computed, if one has to be made.
pub open spec fn can_begin(scaler: VpssScaler, image: RgbImage, pixel_bytes: u32) -> bool {
    scaler.is_ready(image.width, image.height) || image.width * pixel_bytes <= u32::MAX
}

impl VpssScaler {
    /// Whether the geometry for an image can be computed, if one has to be made.
    pub fn image_can_begin(&self, image: &RgbImage, pixel_bytes: u32) -> (ok: bool)
        ensures
            ok == can_begin(*self, *image, pixel_bytes),
    {
        if let Some(config) = self.input_config {
            if config.width as u32 == image.width && config.height as u32 == image.height {
                return true;
            }
        }
        image.width.checked_mul(pixel_bytes).is_some()
    }
}

/// The sizes of the images.
pub open spec fn sizes(images: Seq<RgbImage>) -> Seq<(u32, u32)> {
    images.map_values(|image: RgbImage| (image.width, image.height))
}

impl VpssBatch {
    /// There is an image that is not scaled yet as long as there is something to do, and the
    /// pipeline is in step with the current one.
    pub open spec fn well_formed(self) -> bool {
        &&& self.action is Finish <==> self.waiting@.len() == 0
        &&& self.waiting@.len() > 0 ==> in_step(
            self.scaler,
            self.action,
            self.waiting@.last().width,
            self.waiting@.last().height,
        )
    }

    /// The size of the scaled frame of the current image can be computed.
    pub open spec fn can_read(self) -> bool {
        let image = self.waiting@.last();
        let (width, height) = self.scaler.result_dims(image.width, image.height);
        width * height * 3 <= u32::MAX
    }

    /// The batch can go on to the image after the current one, if there is one.
    pub open spec fn can_go_on(self, pixel_bytes: u32) -> bool {
        self.waiting@.len() > 1 ==> can_begin(
            self.scaler,
            self.waiting@[self.waiting@.len() - 2],
            pixel_bytes,
        )
    }

    /// Whether the size of the scaled frame of the current image can be computed.
    pub fn frame_can_be_read(&self) -> (ok: bool)
        requires
            self.waiting@.len() > 0,
        ensures
            ok == self.can_read(),
    {
        let count: usize = self.waiting.len();
        let image = &self.waiting[count - 1];
        let (width, height) = self.scaler.output_dims(image.width, image.height);
        assert(0 <= width * height <= 0xffff_ffff * 0xffff_ffff) by (nonlinear_arith)
            requires
                width <= 0xffff_ffff,
                height <= 0xffff_ffff,
        ;
        3 * (width as u128 * height as u128) <= u32::MAX as u128
    }

    /// Whether the batch can go on to the image after the current one.
    pub fn next_can_begin(&self, pixel_bytes: u32) -> (ok: bool)
        ensures
            ok == self.can_go_on(pixel_bytes),
    {
        let count: usize = self.waiting.len();
        if count > 1 {
            self.scaler.image_can_begin(&self.waiting[count - 2], pixel_bytes)
        } else {
            true
        }
    }

    /// The sizes of the scaled images of the whole batch, in order.
    pub open spec fn final_sizes(self) -> Seq<(u32, u32)> {
        sizes(self.results@) + self.waiting@.reverse().map_values(
            |image: RgbImage| self.scaler.result_dims(image.width, image.height),
        )
    }

    /// The passes are the same.
    pub open spec fn same_passes(self, other: VpssBatch) -> bool {
        &&& self.scaler.downscale == other.scaler.downscale
        &&& self.scaler.upscale == other.scaler.upscale
    }

    /// The batch begins with its current image, if it has one.
    pub open spec fn has_begun(self, before: VpssScaler, pixel_bytes: u32) -> bool {
        if self.waiting@.len() == 0 {
            self.action is Finish && self.scaler == before
        } else {
            let image = self.waiting@.last();
            &&& self.action == frame_plan(before, image.width, image.height, pixel_bytes)[0]
            &&& self.scaler.input_config == if before.is_ready(image.width, image.height) {
                before.input_config
            } else {
                None
            }
            &&& self.scaler.downscale == before.downscale
            &&& self.scaler.upscale == before.upscale
        }
    }

    /// Begins with the first image of a batch.
    pub fn new(scaler: VpssScaler, images: Vec<RgbImage>, pixel_bytes: u32) -> (batch: VpssBatch)
        requires
            images@.len() > 0 ==> can_begin(scaler, images@[0], pixel_bytes),
        ensures
            batch.well_formed(),
            batch.results@.len() == 0,
            batch.waiting@ == images@.reverse(),
            batch.final_sizes() == images@.map_values(
                |image: RgbImage| scaler.result_dims(image.width, image.height),
            ),
            batch.has_begun(scaler, pixel_bytes),
    {
        let ghost all = images@;
        let mut rest: Vec<RgbImage> = images;
        let mut waiting: Vec<RgbImage> = Vec::new();
        while rest.len() > 0
            invariant
                rest@.len() + waiting@.len() == all.len(),
                rest@ == all.take(rest@.len() as int),
                waiting@ == all.skip(rest@.len() as int).reverse(),
            decreases rest@.len(),
        {
            let ghost n = rest@.len() as int;
            let image = rest.pop().unwrap();
            waiting.push(image);
            assert(waiting@ =~= all.skip(n - 1).reverse());
            assert(rest@ =~= all.take(n - 1));
        }
        assert(waiting@ =~= all.reverse());
        let mut batch = VpssBatch {
            scaler,
            results: Vec::new(),
            waiting,
            action: FrameAction::Finish,
        };
        batch.begin(pixel_bytes);
        assert(batch.waiting@.reverse() =~= all);
        assert(batch.final_sizes() =~= all.map_values(
            |image: RgbImage| scaler.result_dims(image.width, image.height),
        ));
        batch
    }

    fn begin(&mut self, pixel_bytes: u32)
        requires
            old(self).waiting@.len() > 0 ==> can_begin(
                old(self).scaler,
                old(self).waiting@.last(),
                pixel_bytes,
            ),
        ensures
            final(self).well_formed(),
            final(self).results == old(self).results,
            final(self).waiting == old(self).waiting,
            final(self).has_begun(old(self).scaler, pixel_bytes),
    {
        let count: usize = self.waiting.len();
        if count == 0 {
            self.action = FrameAction::Finish;
        } else {
            let (width, height) = (self.waiting[count - 1].width, self.waiting[count - 1].height);
            self.action = self.scaler.begin_frame(width, height, pixel_bytes);
        }
    }

    /// Takes note that the current action was done for the current image, or that it failed, and
    /// tells what comes next. A frame that was read back is handed over with `read_done`.
    pub fn step(&mut self, succeeded: bool) -> (action: FrameAction)
        requires
            old(self).well_formed(),
            old(self).waiting@.len() > 0,
            succeeded ==> !(old(self).action is ReadFrame),
        ensures
            final(self).well_formed(),
            final(self).results == old(self).results,
            final(self).waiting == old(self).waiting,
            final(self).same_passes(*old(self)),
            final(self).final_sizes() == old(self).final_sizes(),
            action == final(self).action,
            ({
                let image = old(self).waiting@.last();
                let done = old(self).action;
                &&& action == if succeeded {
                    old(self).scaler.successor(done, image.width, image.height)
                } else {
                    FrameAction::Fail(VpssScaler::failure(done))
                }
                &&& final(self).scaler.input_config == old(self).scaler.config_after(
                    done,
                    succeeded,
                    image.width,
                    image.height,
                )
            }),
    {
        let count: usize = self.waiting.len();
        let (width, height) = (self.waiting[count - 1].width, self.waiting[count - 1].height);
        self.action = self.scaler.next_action(self.action, succeeded, width, height);
        proof {
            assert(self.final_sizes() =~= old(self).final_sizes());
        }
        self.action
    }

    /// Turns the buffer of the current image, which has been written, into one for its scaled
    /// frame. What both have room for stays as it is, and the rest is zero.
    pub fn read_buffer(&mut self) -> (buffer: Vec<u8>)
        requires
            old(self).well_formed(),
            old(self).action is ReadFrame,
            old(self).can_read(),
        ensures
            final(self).well_formed(),
            final(self).results == old(self).results,
            final(self).scaler == old(self).scaler,
            final(self).action == old(self).action,
            final(self).waiting@.len() == old(self).waiting@.len(),
            final(self).waiting@.drop_last() == old(self).waiting@.drop_last(),
            final(self).waiting@.last().width == old(self).waiting@.last().width,
            final(self).waiting@.last().height == old(self).waiting@.last().height,
            final(self).final_sizes() == old(self).final_sizes(),
            ({
                let image = old(self).waiting@.last();
                let (width, height) = old(self).scaler.result_dims(image.width, image.height);
                &&& buffer@.len() == 3 * (width * height)
                &&& forall|k: int|
                    0 <= k < buffer@.len() ==> #[trigger] buffer@[k] == if k < image.data@.len() {
                        image.data@[k]
                    } else {
                        0
                    }
            }),
    {
        let ghost before = self.waiting@;
        let image = self.waiting.pop().unwrap();
        let (width, height) = (image.width, image.height);
        let buffer = self.scaler.frame_buffer(image);
        self.waiting.push(RgbImage { width, height, data: Vec::new() });
        proof {
            let after = self.waiting@;
            assert(after.drop_last() =~= before.drop_last());
            assert forall|i: int| 0 <= i < after.len() implies after.reverse()[i].width
                == before.reverse()[i].width && after.reverse()[i].height
                == before.reverse()[i].height by {
                let j = after.len() - 1 - i;
                assert(j < after.len() - 1 ==> after[j] == before[j]);
            }
            assert(self.final_sizes() =~= old(self).final_sizes());
        }
        buffer
    }

    /// Takes over the scaled frame of the current image, and begins with the next image, if there
    /// is one.
    pub fn read_done(&mut self, buffer: Vec<u8>, pixel_bytes: u32) -> (action: FrameAction)
        requires
            old(self).well_formed(),
            old(self).action is ReadFrame,
            ({
                let image = old(self).waiting@.last();
                let (width, height) = old(self).scaler.result_dims(image.width, image.height);
                buffer@.len() == 3 * (width * height)
            }),
            old(self).can_go_on(pixel_bytes),
        ensures
            final(self).well_formed(),
            final(self).waiting@ == old(self).waiting@.drop_last(),
            final(self).results@.drop_last() == old(self).results@,
            final(self).results@.len() == old(self).results@.len() + 1,
            final(self).results@.last().well_formed(),
            final(self).results@.last().data == buffer,
            final(self).same_passes(*old(self)),
            final(self).final_sizes() == old(self).final_sizes(),
            final(self).has_begun(old(self).scaler, pixel_bytes),
            action == final(self).action,
    {
        let ghost before = self.waiting@;
        let ghost count = self.results@.len();
        let image = self.waiting.pop().unwrap();
        let (width, height) = self.scaler.output_dims(image.width, image.height);
        self.results.push(RgbImage::from_raw(width, height, buffer));
        self.begin(pixel_bytes);
        proof {
            assert(self.results@.drop_last() =~= old(self).results@);
            assert forall|i: int| 0 <= i < old(self).final_sizes().len() implies (
            #[trigger] self.final_sizes()[i]) == old(self).final_sizes()[i] by {
                if i > count {
                    assert(self.waiting@.reverse()[i - count - 1] == before.reverse()[i - count]);
                }
            }
            assert(self.final_sizes() =~= old(self).final_sizes());
        }
        self.action
    }
}

/// A batch that has come to its end has scaled all of its images, in order, each to the size that
/// the last stage asks for.
pub proof fn law_finished_batch_is_complete(batch: VpssBatch)
    requires
        batch.well_formed(),
        batch.action is Finish,
    ensures
        sizes(batch.results@) == batch.final_sizes(),
{
    assert(sizes(batch.results@) =~= batch.final_sizes());
}

/// The size that a stage is asked for, for an image of `width` by `height` pixels.
pub open spec fn asked_size(dims: ScaleDims, width: u32, height: u32) -> (u32, u32) {
    (
        if dims is Absolute {
            dims->Absolute_0.width
        } else {
            width
        },
        if dims is Absolute {
            dims->Absolute_0.height
        } else {
            height
        },
    )
}

/// A frame configuration holds the size itself. There is one if and only if both sides fit in
/// sixteen bits, and a width that does not is reported first.
pub proof fn law_frame_configurations_hold_the_size(
    width: u32,
    height: u32,
    config: Result<FrameConfig, FrameOverflow>,
)
    requires
        call_ensures(FrameConfig::for_size, (width, height), config),
    ensures
        config is Ok <==> width < 65_536 && height < 65_536,
        config matches Ok(size) ==> size.width == width && size.height == height,
        config matches Err(overflow) ==> (overflow is Width <==> width >= 65_536),
{
}

/// A stage puts out frames of the size that it is asked for.
pub proof fn law_stages_put_out_what_is_asked(
    scale: VpssScale,
    width: u32,
    height: u32,
    config: Result<FrameConfig, FrameOverflow>,
)
    requires
        call_ensures(VpssScale::cfg_for, (&scale, width, height), config),
    ensures
        ({
            let (out_width, out_height) = asked_size(scale.dims, width, height);
            &&& config is Ok <==> out_width < 65_536 && out_height < 65_536
            &&& config matches Ok(size) ==> size.width == out_width && size.height == out_height
            &&& config matches Err(overflow) ==> (overflow is Width <==> out_width >= 65_536)
        }),
{
}

/// A new scaler has the configured stages, the first one first, and is not set up.
pub proof fn law_new_scalers_have_the_configured_stages(
    downscale: VpssScaling,
    upscale: Option<VpssScaling>,
    scaler: VpssScaler,
)
    requires
        call_ensures(VpssScaler::new, (&downscale, &upscale), scaler),
    ensures
        scaler.input_config is None,
        scaler.downscale.dims == downscale.dims.0,
        scaler.downscale.nn == downscale.nn,
        scaler.upscale is Some <==> upscale is Some,
        upscale is Some ==> scaler.upscale->Some_0.dims == upscale->Some_0.dims.0
            && scaler.upscale->Some_0.nn == upscale->Some_0.nn,
{
}

/// The scaled frame has the size that the last stage is asked for.
pub proof fn law_last_stage_decides_the_size(
    scaler: VpssScaler,
    width: u32,
    height: u32,
    size: (u32, u32),
)
    requires
        call_ensures(VpssScaler::output_dims, (&scaler, width, height), size),
    ensures
        scaler.upscale is None ==> size == asked_size(scaler.downscale.dims, width, height),
        scaler.upscale matches Some(up) ==> size == asked_size(up.dims, width, height),
{
}

/// A frame of the size for which the pipeline is set up is written at once. For any other frame a
/// geometry is made first, of all bytes of its lines, and the pipeline counts as not set up.
pub proof fn law_frames_begin_as_they_must(
    scaler: &mut VpssScaler,
    width: u32,
    height: u32,
    pixel_bytes: u32,
    action: FrameAction,
)
    requires
        call_ensures(VpssScaler::begin_frame, (scaler, width, height, pixel_bytes), action),
        width * pixel_bytes <= u32::MAX,
    ensures
        final(scaler).downscale == old(scaler).downscale,
        final(scaler).upscale == old(scaler).upscale,
        match old(scaler).input_config {
            Some(config) if config.width == width && config.height == height => action is WriteFrame
                && final(scaler).input_config == old(scaler).input_config,
            _ => {
                &&& final(scaler).input_config is None
                &&& action matches FrameAction::MakeGeometry { line_bytes, lines }
                &&& line_bytes == width * pixel_bytes
                &&& lines == height
            },
        },
{
}

/// What is done for a frame comes in one order: the geometry is made and set, then the first stage
/// is set up, then the second if there is one, then the frame is written, and then it is read back.
/// The first stage takes in frames of the size of the image. Each stage puts out frames of the size
/// that it is asked for, and the second takes in what the first puts out.
pub proof fn law_frames_go_on_in_order(
    scaler: &mut VpssScaler,
    done: FrameAction,
    width: u32,
    height: u32,
    action: FrameAction,
)
    requires
        call_ensures(VpssScaler::next_action, (scaler, done, true, width, height), action),
        width < 65_536,
        height < 65_536,
        asked_size(old(scaler).downscale.dims, width, height).0 < 65_536,
        asked_size(old(scaler).downscale.dims, width, height).1 < 65_536,
        old(scaler).upscale matches Some(up) ==> asked_size(up.dims, width, height).0 < 65_536
            && asked_size(up.dims, width, height).1 < 65_536,
    ensures
        done is MakeGeometry ==> action is SetGeometry,
        done is SetGeometry ==> {
            let (out_width, out_height) = asked_size(old(scaler).downscale.dims, width, height);
            &&& action matches FrameAction::ConfigureDown { input, output, nn }
            &&& input.width == width
            &&& input.height == height
            &&& output.width == out_width
            &&& output.height == out_height
            &&& nn == old(scaler).downscale.nn
        },
        done is ConfigureDown && old(scaler).upscale is Some ==> {
            let up = old(scaler).upscale->Some_0;
            let (in_width, in_height) = asked_size(old(scaler).downscale.dims, width, height);
            let (out_width, out_height) = asked_size(up.dims, width, height);
            &&& action matches FrameAction::ConfigureUp { input, output, nn }
            &&& input.width == in_width
            &&& input.height == in_height
            &&& output.width == out_width
            &&& output.height == out_height
            &&& nn == up.nn
        },
        done is ConfigureDown && old(scaler).upscale is None ==> action is WriteFrame,
        done is ConfigureUp ==> action is WriteFrame,
        done is WriteFrame ==> action is ReadFrame,
        done is ReadFrame ==> action is Finish,
        final(scaler).downscale == old(scaler).downscale,
        final(scaler).upscale == old(scaler).upscale,
{
}

/// The pipeline counts as set up for the size of the image from the moment at which its last stage
/// has been set up, and nothing else changes for which frames it is set up.
pub proof fn law_last_stage_completes_the_setup(
    scaler: &mut VpssScaler,
    done: FrameAction,
    succeeded: bool,
    width: u32,
    height: u32,
    action: FrameAction,
)
    requires
        call_ensures(VpssScaler::next_action, (scaler, done, succeeded, width, height), action),
        width < 65_536,
        height < 65_536,
    ensures
        if succeeded && (done is ConfigureUp || (done is ConfigureDown && old(scaler).upscale
            is None)) {
            final(scaler).input_config matches Some(config) && config.width == width
                && config.height == height
        } else {
            final(scaler).input_config == old(scaler).input_config
        },
        final(scaler).downscale == old(scaler).downscale,
        final(scaler).upscale == old(scaler).upscale,
{
}

/// An image that does not fit in a frame configuration is given up once its geometry is made, and
/// one whose scaled frame does not fit once the geometry is set. The error tells the first of the
/// sides that is too large, of the first stage before the second.
pub proof fn law_large_frames_are_given_up(
    scaler: &mut VpssScaler,
    done: FrameAction,
    width: u32,
    height: u32,
    action: FrameAction,
)
    requires
        call_ensures(VpssScaler::next_action, (scaler, done, true, width, height), action),
    ensures
        done is MakeGeometry && width >= 65_536 ==> action == FrameAction::Fail(
            FrameError::InputOverflow(FrameOverflow::Width),
        ),
        done is MakeGeometry && width < 65_536 && height >= 65_536 ==> action == FrameAction::Fail(
            FrameError::InputOverflow(FrameOverflow::Height),
        ),
        done is SetGeometry && width < 65_536 && height < 65_536 ==> {
            let down = asked_size(old(scaler).downscale.dims, width, height);
            &&& down.0 >= 65_536 ==> action == FrameAction::Fail(
                FrameError::OutputOverflow(FrameOverflow::Width),
            )
            &&& down.0 < 65_536 && down.1 >= 65_536 ==> action == FrameAction::Fail(
                FrameError::OutputOverflow(FrameOverflow::Height),
            )
            &&& down.0 < 65_536 && down.1 < 65_536 && old(scaler).upscale is Some ==> {
                let up = asked_size(old(scaler).upscale->Some_0.dims, width, height);
                &&& up.0 >= 65_536 ==> action == FrameAction::Fail(
                    FrameError::OutputOverflow(FrameOverflow::Width),
                )
                &&& up.0 < 65_536 && up.1 >= 65_536 ==> action == FrameAction::Fail(
                    FrameError::OutputOverflow(FrameOverflow::Height),
                )
            }
        },
{
}

/// Whatever fails, the frame is given up with the error of what failed.
pub proof fn law_failures_are_told_apart(
    scaler: &mut VpssScaler,
    done: FrameAction,
    width: u32,
    height: u32,
    action: FrameAction,
)
    requires
        call_ensures(VpssScaler::next_action, (scaler, done, false, width, height), action),
    ensures
        action is Fail,
        done is MakeGeometry ==> action->Fail_0 is Geometry,
        done is SetGeometry ==> action->Fail_0 is SetGeometry,
        done is ConfigureDown ==> action->Fail_0 is Downscaler,
        done is ConfigureUp ==> action->Fail_0 is Upscaler,
        done is WriteFrame ==> action->Fail_0 is Write,
        done is ReadFrame ==> action->Fail_0 is Read,
        *final(scaler) == *old(scaler),
{
}

/// The buffer for a scaled frame has three bytes for each pixel of the size that the last stage is
/// asked for, and holds what it has room for of the image.
pub proof fn law_buffers_have_room_for_the_frame(
    scaler: VpssScaler,
    image: RgbImage,
    buffer: Vec<u8>,
    k: int,
)
    requires
        call_ensures(VpssScaler::frame_buffer, (&scaler, image), buffer),
    ensures
        ({
            let dims = if scaler.upscale is Some {
                scaler.upscale->Some_0.dims
            } else {
                scaler.downscale.dims
            };
            let (width, height) = asked_size(dims, image.width, image.height);
            buffer@.len() == 3 * (width * height)
        }),
        0 <= k < buffer@.len() && k < image.data@.len() ==> buffer@[k] == image.data@[k],
        image.data@.len() <= k < buffer@.len() ==> buffer@[k] == 0,
{
}

/// A frame can be begun with if and only if the pipeline is set up for its size or the bytes of its
/// lines can be counted in 32 bits.
pub proof fn law_lines_have_to_be_countable(
    scaler: VpssScaler,
    image: RgbImage,
    pixel_bytes: u32,
    ok: bool,
)
    requires
        call_ensures(VpssScaler::image_can_begin, (&scaler, &image, pixel_bytes), ok),
    ensures
        ok <==> image.width * pixel_bytes <= u32::MAX || (scaler.input_config matches Some(config)
            && config.width == image.width && config.height == image.height),
{
}

/// A batch begins with its first image, as the scaler begins with a single frame, and all images
/// wait in their order.
pub proof fn law_batches_begin_with_the_first_image(
    scaler: &mut VpssScaler,
    images: Vec<RgbImage>,
    pixel_bytes: u32,
    batch: VpssBatch,
    action: FrameAction,
    i: int,
)
    requires
        call_ensures(VpssBatch::new, (*old(scaler), images, pixel_bytes), batch),
        images@.len() > 0 ==> call_ensures(
            VpssScaler::begin_frame,
            (scaler, images@[0].width, images@[0].height, pixel_bytes),
            action,
        ),
    ensures
        batch.results@.len() == 0,
        batch.waiting@.len() == images@.len(),
        0 <= i < images@.len() ==> batch.waiting@[images@.len() - 1 - i] == images@[i],
        images@.len() == 0 ==> batch.action is Finish && batch.scaler == *old(scaler),
        images@.len() > 0 ==> batch.action == action && batch.scaler == *final(scaler),
{
}

/// A step of a batch is a step of the scaler with the current image, and the images stay where they
/// are.
pub proof fn law_batches_step_like_frames(
    batch: &mut VpssBatch,
    scaler: &mut VpssScaler,
    succeeded: bool,
    action: FrameAction,
    same: FrameAction,
)
    requires
        call_ensures(VpssBatch::step, (batch, succeeded), action),
        old(batch).waiting@.len() > 0,
        *old(scaler) == old(batch).scaler,
        call_ensures(
            VpssScaler::next_action,
            (
                scaler,
                old(batch).action,
                succeeded,
                old(batch).waiting@.last().width,
                old(batch).waiting@.last().height,
            ),
            same,
        ),
    ensures
        action == same,
        final(batch).action == same,
        final(batch).scaler == *final(scaler),
        final(batch).results@ == old(batch).results@,
        final(batch).waiting@ == old(batch).waiting@,
{
}

/// A batch hands out the buffer for the frame of its current image, and keeps everything else.
pub proof fn law_batches_hand_out_the_buffer(batch: &mut VpssBatch, buffer: Vec<u8>, k: int)
    requires
        call_ensures(VpssBatch::read_buffer, (batch,), buffer),
        old(batch).waiting@.len() > 0,
    ensures
        ({
            let image = old(batch).waiting@.last();
            let scaler = old(batch).scaler;
            let dims = if scaler.upscale is Some {
                scaler.upscale->Some_0.dims
            } else {
                scaler.downscale.dims
            };
            let (width, height) = asked_size(dims, image.width, image.height);
            &&& buffer@.len() == 3 * (width * height)
            &&& 0 <= k < buffer@.len() && k < image.data@.len() ==> buffer@[k] == image.data@[k]
            &&& image.data@.len() <= k < buffer@.len() ==> buffer@[k] == 0
        }),
        final(batch).scaler == old(batch).scaler,
        final(batch).action == old(batch).action,
        final(batch).results@ == old(batch).results@,
        final(batch).waiting@.len() == old(batch).waiting@.len(),
        final(batch).waiting@.last().width == old(batch).waiting@.last().width,
        final(batch).waiting@.last().height == old(batch).waiting@.last().height,
        0 <= k < old(batch).waiting@.len() - 1 ==> final(batch).waiting@[k] == old(
            batch,
        ).waiting@[k],
{
    if 0 <= k < old(batch).waiting@.len() - 1 {
        assert(final(batch).waiting@.drop_last()[k] == old(batch).waiting@.drop_last()[k]);
    }
}

/// A frame that was read back becomes the next result, with the bytes that were read and the size
/// that the last stage was asked for. The batch goes on with the next image as the scaler begins
/// with a single frame, and it is finished when there is none.
pub proof fn law_read_frames_become_results(
    batch: &mut VpssBatch,
    scaler: &mut VpssScaler,
    buffer: Vec<u8>,
    pixel_bytes: u32,
    action: FrameAction,
    begun: FrameAction,
    k: int,
)
    requires
        call_ensures(VpssBatch::read_done, (batch, buffer, pixel_bytes), action),
        old(batch).waiting@.len() > 0,
        *old(scaler) == old(batch).scaler,
        old(batch).waiting@.len() > 1 ==> call_ensures(
            VpssScaler::begin_frame,
            (
                scaler,
                old(batch).waiting@[old(batch).waiting@.len() - 2].width,
                old(batch).waiting@[old(batch).waiting@.len() - 2].height,
                pixel_bytes,
            ),
            begun,
        ),
    ensures
        final(batch).action == action,
        final(batch).results@.len() == old(batch).results@.len() + 1,
        0 <= k < old(batch).results@.len() ==> final(batch).results@[k] == old(batch).results@[k],
        final(batch).results@.last().data@ == buffer@,
        ({
            let image = old(batch).waiting@.last();
            let dims = if old(batch).scaler.upscale is Some {
                old(batch).scaler.upscale->Some_0.dims
            } else {
                old(batch).scaler.downscale.dims
            };
            let (width, height) = asked_size(dims, image.width, image.height);
            &&& final(batch).results@.last().width == width
            &&& final(batch).results@.last().height == height
        }),
        final(batch).waiting@.len() == old(batch).waiting@.len() - 1,
        0 <= k < final(batch).waiting@.len() ==> final(batch).waiting@[k] == old(batch).waiting@[k],
        old(batch).waiting@.len() == 1 ==> action is Finish && final(batch).scaler == old(
            batch,
        ).scaler,
        old(batch).waiting@.len() > 1 ==> action == begun && final(batch).scaler == *final(scaler),
{
    let n = old(batch).results@.len() as int;
    assert(final(batch).final_sizes()[n] == old(batch).final_sizes()[n]);
    assert(old(batch).waiting@.reverse()[0] == old(batch).waiting@.last());
    assert(sizes(final(batch).results@)[n] == final(batch).final_sizes()[n]);
    if 0 <= k < n {
        assert(final(batch).results@.drop_last()[k] == old(batch).results@[k]);
    }
}

/// The scaled frame of the current image can be read back if and only if its bytes can be counted
/// in 32 bits.
pub proof fn law_frames_have_to_be_countable(batch: VpssBatch, ok: bool)
    requires
        call_ensures(VpssBatch::frame_can_be_read, (&batch,), ok),
        batch.waiting@.len() > 0,
    ensures
        ({
            let image = batch.waiting@.last();
            let dims = if batch.scaler.upscale is Some {
                batch.scaler.upscale->Some_0.dims
            } else {
                batch.scaler.downscale.dims
            };
            let (width, height) = asked_size(dims, image.width, image.height);
            ok <==> 3 * (width * height) <= u32::MAX
        }),
{
}

/// A batch can go on if there is no next image, or if the scaler can begin with it.
pub proof fn law_batches_go_on_with_the_next_image(
    batch: VpssBatch,
    pixel_bytes: u32,
    ok: bool,
    next: bool,
)
    requires
        call_ensures(VpssBatch::next_can_begin, (&batch, pixel_bytes), ok),
        batch.waiting@.len() > 1 ==> call_ensures(
            VpssScaler::image_can_begin,
            (&batch.scaler, &batch.waiting@[batch.waiting@.len() - 2], pixel_bytes),
            next,
        ),
    ensures
        batch.waiting@.len() <= 1 ==> ok,
        batch.waiting@.len() > 1 ==> ok == next,
{
}

/// A frame can be begun with, and a scaled frame be read back, wherever the numbers suffice.
pub proof fn law_countable_frames_are_taken(
    scaler: &mut VpssScaler,
    image: RgbImage,
    pixel_bytes: u32,
    ok: bool,
    size: (u32, u32),
)
    requires
        call_ensures(VpssScaler::image_can_begin, (old(scaler), &image, pixel_bytes), ok),
        call_ensures(VpssScaler::output_dims, (old(scaler), image.width, image.height), size),
    ensures
        ok ==> call_requires(
            VpssScaler::begin_frame,
            (scaler, image.width, image.height, pixel_bytes),
        ),
        3 * (size.0 * size.1) <= u32::MAX ==> call_requires(
            VpssScaler::frame_buffer,
            (old(scaler), image),
        ),
{
}

} // verus!
