//! The render-once pipeline as a state machine: strictly sequential stages,
//! each advanced by one collaborator response, failing fast on the first
//! error. The surrounding program performs the windowing, font and drawing
//! work; this module decides what comes next and what each outcome means.

use vstd::prelude::*;
use crate::config::Config;
use crate::placement::MAX_DIMENSION;
use crate::placement::PlacementRect;
use crate::placement::centering_offset;
use crate::placement::compute_placement;
use crate::placement::fitted_height;
use crate::placement::fitted_width;

verus! {

/// The stages of the one-shot render, in the order they are reached.
#[derive(Clone, Copy, Debug, PartialEq, Eq, Structural)]
pub enum Stage {
    /// Nothing acquired yet.
    Uninitialized,
    /// The video subsystem is up and the drawing surface exists.
    SurfaceReady,
    /// The font engine is up and the font face is loaded.
    FontReady,
    /// The text has been rasterized into a pixel image of the given size.
    ImageRasterized { width: u32, height: u32 },
    /// The pixel image has been uploaded to a texture of the same size.
    TextureUploaded { width: u32, height: u32 },
    /// The placement rectangle has been computed.
    Placed { rect: PlacementRect },
    /// The frame has been presented; only the event loop remains.
    Presented,
}

impl Stage {
    /// Position of a stage in the strictly sequential pipeline order.
    pub open spec fn index(&self) -> int {
        match self {
            Stage::Uninitialized => 0,
            Stage::SurfaceReady => 1,
            Stage::FontReady => 2,
            Stage::ImageRasterized { .. } => 3,
            Stage::TextureUploaded { .. } => 4,
            Stage::Placed { .. } => 5,
            Stage::Presented => 6,
        }
    }
}

/// The failure of any pipeline step, carrying the collaborator's
/// human-readable message verbatim.
#[derive(Clone, Debug)]
pub enum PipelineError {
    SubsystemInit { message: String },
    SurfaceCreation { message: String },
    FontLoad { message: String },
    Rasterization { message: String },
    TextureUpload { message: String },
    Present { message: String },
}

impl PipelineError {
    /// The message carried by the error, whichever kind it is.
    pub open spec fn spec_message(&self) -> Seq<char> {
        match self {
            PipelineError::SubsystemInit { message } => message@,
            PipelineError::SurfaceCreation { message } => message@,
            PipelineError::FontLoad { message } => message@,
            PipelineError::Rasterization { message } => message@,
            PipelineError::TextureUpload { message } => message@,
            PipelineError::Present { message } => message@,
        }
    }

    /// Surrender the carried message, for reporting at the process
    /// boundary.
    pub fn into_message(self) -> (m: String)
        ensures
            m@ == self.spec_message(),
    {
        match self {
            PipelineError::SubsystemInit { message } => message,
            PipelineError::SurfaceCreation { message } => message,
            PipelineError::FontLoad { message } => message,
            PipelineError::Rasterization { message } => message,
            PipelineError::TextureUpload { message } => message,
            PipelineError::Present { message } => message,
        }
    }
}

/// The outcome of one collaborator step, reported back to the pipeline.
#[derive(Clone, Debug)]
pub enum StepEvent {
    /// The video subsystem came up and the drawing surface was created.
    SurfaceCreated,
    /// The video subsystem itself could not be initialized.
    SubsystemInitFailed { message: String },
    /// The subsystem came up but the surface could not be created.
    SurfaceCreationFailed { message: String },
    /// The font engine came up and the font face was loaded.
    FontLoaded,
    /// The font engine or the font file failed.
    FontLoadFailed { message: String },
    /// The text was rasterized into a pixel image of the given size.
    ImageReady { width: u32, height: u32 },
    /// The font engine could not shape or render the text.
    RasterizationFailed { message: String },
    /// The pixel image was uploaded to a texture of the given size.
    TextureReady { width: u32, height: u32 },
    /// The upload to the graphics device failed.
    TextureUploadFailed { message: String },
    /// The frame was drawn and presented.
    FramePresented,
    /// The draw or the present failed.
    PresentFailed { message: String },
}

/// What the surrounding program must do next at each stage.
#[derive(Clone, Copy, Debug, PartialEq, Eq, Structural)]
pub enum Action {
    /// Initialize the video subsystem and create the drawing surface.
    CreateSurface,
    /// Initialize the font engine and load the font face.
    LoadFont,
    /// Rasterize the text into a pixel image.
    Rasterize,
    /// Upload the pixel image to a texture.
    Upload,
    /// Compute the placement rectangle (internal step, `place`).
    Place,
    /// Clear, draw the texture at its placement, and present.
    Present,
    /// Poll for termination signals; the render is done.
    Idle,
}

/// The action each stage calls for.
pub open spec fn action_of(stage: Stage) -> Action {
    match stage {
        Stage::Uninitialized => Action::CreateSurface,
        Stage::SurfaceReady => Action::LoadFont,
        Stage::FontReady => Action::Rasterize,
        Stage::ImageRasterized { .. } => Action::Upload,
        Stage::TextureUploaded { .. } => Action::Place,
        Stage::Placed { .. } => Action::Present,
        Stage::Presented => Action::Idle,
    }
}

/// What the surrounding program must do next at the given stage.
pub fn next_action(stage: &Stage) -> (a: Action)
    ensures
        a == action_of(*stage),
{
    match stage {
        Stage::Uninitialized => Action::CreateSurface,
        Stage::SurfaceReady => Action::LoadFont,
        Stage::FontReady => Action::Rasterize,
        Stage::ImageRasterized { .. } => Action::Upload,
        Stage::TextureUploaded { .. } => Action::Place,
        Stage::Placed { .. } => Action::Present,
        Stage::Presented => Action::Idle,
    }
}

/// Whether the event is a possible outcome of the action the stage calls
/// for. The placement step is internal and answers to no event.
pub open spec fn event_answers(stage: Stage, event: StepEvent) -> bool {
    match stage {
        Stage::Uninitialized => event is SurfaceCreated || event is SubsystemInitFailed
            || event is SurfaceCreationFailed,
        Stage::SurfaceReady => event is FontLoaded || event is FontLoadFailed,
        Stage::FontReady => event is ImageReady || event is RasterizationFailed,
        Stage::ImageRasterized { .. } => event is TextureReady || event is TextureUploadFailed,
        Stage::TextureUploaded { .. } => false,
        Stage::Placed { .. } => event is FramePresented || event is PresentFailed,
        Stage::Presented => false,
    }
}

/// Whether the event's payload is sound: a rasterized image has positive
/// dimensions that fit display coordinates, and a texture carries exactly
/// the dimensions of the image it was made from.
pub open spec fn event_sound(stage: Stage, event: StepEvent) -> bool {
    match event {
        StepEvent::ImageReady { width, height } => 0 < width <= MAX_DIMENSION && 0 < height
            <= MAX_DIMENSION,
        StepEvent::TextureReady { width, height } => stage matches Stage::ImageRasterized {
            width: iw,
            height: ih,
        } && width == iw && height == ih,
        _ => true,
    }
}

/// Whether the event reports success (the step advances) rather than a
/// failure (the pipeline aborts).
pub open spec fn event_is_success(event: StepEvent) -> bool {
    match event {
        StepEvent::SurfaceCreated => true,
        StepEvent::FontLoaded => true,
        StepEvent::ImageReady { .. } => true,
        StepEvent::TextureReady { .. } => true,
        StepEvent::FramePresented => true,
        _ => false,
    }
}

/// The transition relation of the pipeline: the stage an event advances
/// to, or the error that aborts the run, the collaborator's message kept
/// verbatim.
pub open spec fn apply_spec(stage: Stage, event: StepEvent) -> Result<Stage, PipelineError> {
    match event {
        StepEvent::SurfaceCreated => Ok(Stage::SurfaceReady),
        StepEvent::SubsystemInitFailed { message } => Err(
            PipelineError::SubsystemInit { message },
        ),
        StepEvent::SurfaceCreationFailed { message } => Err(
            PipelineError::SurfaceCreation { message },
        ),
        StepEvent::FontLoaded => Ok(Stage::FontReady),
        StepEvent::FontLoadFailed { message } => Err(PipelineError::FontLoad { message }),
        StepEvent::ImageReady { width, height } => Ok(Stage::ImageRasterized { width, height }),
        StepEvent::RasterizationFailed { message } => Err(
            PipelineError::Rasterization { message },
        ),
        StepEvent::TextureReady { width, height } => Ok(Stage::TextureUploaded { width, height }),
        StepEvent::TextureUploadFailed { message } => Err(
            PipelineError::TextureUpload { message },
        ),
        StepEvent::FramePresented => Ok(Stage::Presented),
        StepEvent::PresentFailed { message } => Err(PipelineError::Present { message }),
    }
}

/// Advance the pipeline by one collaborator response: a successful step
/// moves to the next stage in order, a failed step aborts the whole run
/// with the error of that step.
pub fn apply(stage: Stage, event: StepEvent) -> (r: Result<Stage, PipelineError>)
    requires
        event_answers(stage, event),
        event_sound(stage, event),
    ensures
        r == apply_spec(stage, event),
{
    match event {
        StepEvent::SurfaceCreated => Ok(Stage::SurfaceReady),
        StepEvent::SubsystemInitFailed { message } => Err(
            PipelineError::SubsystemInit { message },
        ),
        StepEvent::SurfaceCreationFailed { message } => Err(
            PipelineError::SurfaceCreation { message },
        ),
        StepEvent::FontLoaded => Ok(Stage::FontReady),
        StepEvent::FontLoadFailed { message } => Err(PipelineError::FontLoad { message }),
        StepEvent::ImageReady { width, height } => Ok(Stage::ImageRasterized { width, height }),
        StepEvent::RasterizationFailed { message } => Err(
            PipelineError::Rasterization { message },
        ),
        StepEvent::TextureReady { width, height } => Ok(Stage::TextureUploaded { width, height }),
        StepEvent::TextureUploadFailed { message } => Err(
            PipelineError::TextureUpload { message },
        ),
        StepEvent::FramePresented => Ok(Stage::Presented),
        StepEvent::PresentFailed { message } => Err(PipelineError::Present { message }),
    }
}

/// The internal transition: from an uploaded texture, compute where it is
/// drawn. The texture size is fitted to the padded bounds and the result
/// is centered on the full screen.
pub fn place(stage: &Stage, config: &Config) -> (r: Stage)
    requires
        config.wf(),
        stage matches Stage::TextureUploaded { width, height } && 0 < *width <= MAX_DIMENSION && 0
            < *height <= MAX_DIMENSION,
    ensures
        r matches Stage::Placed { rect } && ({
            let cw = stage->TextureUploaded_width as int;
            let ch = stage->TextureUploaded_height as int;
            let bw: int = config.screen_width - config.padding;
            let bh: int = config.screen_height - config.padding;
            &&& rect.width == fitted_width(cw, ch, bw, bh)
            &&& rect.height == fitted_height(cw, ch, bw, bh)
            &&& rect.x == centering_offset(config.screen_width as int, rect.width as int)
            &&& rect.y == centering_offset(config.screen_height as int, rect.height as int)
        }),
{
    match stage {
        Stage::TextureUploaded { width, height } => {
            let rect = compute_placement(
                *width,
                *height,
                config.bounds_width(),
                config.bounds_height(),
                config.screen_width,
                config.screen_height,
            );
            Stage::Placed { rect }
        },
        _ => {
            // unreachable: the precondition admits only an uploaded texture
            proof {
                assert(false);
            }
            Stage::Placed { rect: PlacementRect { x: 0, y: 0, width: 1, height: 1 } }
        },
    }
}

/// Sequential progress: a successful step advances the pipeline by
/// exactly one stage; a failed step advances nothing.
pub proof fn lemma_sequential_progress(stage: Stage, event: StepEvent)
    requires
        event_answers(stage, event),
        event_sound(stage, event),
    ensures
        event_is_success(event) ==> (apply_spec(stage, event) matches Ok(next) && next.index()
            == stage.index() + 1),
        !event_is_success(event) ==> apply_spec(stage, event) is Err,
{
}

} // verus!
