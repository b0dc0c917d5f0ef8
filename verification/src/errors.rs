use vstd::prelude::*;
use vstd::std_specs::convert::FromSpecImpl;
use vstd::std_specs::convert::FromSpec;

verus! {

/// Failure reported by a GPU adapter; the string is the message.
#[derive(Debug)]
pub struct GpuError(pub String);

/// Failure reported by the media (window and input) layer.
#[derive(Debug)]
pub struct MediaError(pub String);

/// Failure reported by a graphics interface.
#[derive(Debug)]
pub struct GraphicsError(pub String);

/// Failure reported while configuring the logger.
#[derive(Debug)]
pub struct LoggerError(pub String);

pub type GpuResult<T> = Result<T, GpuError>;

pub type MediaResult<T> = Result<T, MediaError>;

pub type GraphicsResult<T> = Result<T, GraphicsError>;

pub type LoggerResult<T> = Result<T, LoggerError>;

impl From<String> for GpuError {
    fn from(s: String) -> (r: GpuError) {
        GpuError(s)
    }
}

impl FromSpecImpl<String> for GpuError {
    open spec fn obeys_from_spec() -> bool {
        true
    }

    open spec fn from_spec(s: String) -> GpuError {
        GpuError(s)
    }
}

impl From<String> for MediaError {
    fn from(s: String) -> (r: MediaError) {
        MediaError(s)
    }
}

impl FromSpecImpl<String> for MediaError {
    open spec fn obeys_from_spec() -> bool {
        true
    }

    open spec fn from_spec(s: String) -> MediaError {
        MediaError(s)
    }
}

/// A GPU failure seen from the media layer keeps its message.
impl From<GpuError> for MediaError {
    fn from(e: GpuError) -> (r: MediaError) {
        MediaError(e.0)
    }
}

impl FromSpecImpl<GpuError> for MediaError {
    open spec fn obeys_from_spec() -> bool {
        true
    }

    open spec fn from_spec(e: GpuError) -> MediaError {
        MediaError(e.0)
    }
}

/// A media failure seen from the GPU layer keeps its message.
impl From<MediaError> for GpuError {
    fn from(e: MediaError) -> (r: GpuError) {
        GpuError(e.0)
    }
}

impl FromSpecImpl<MediaError> for GpuError {
    open spec fn obeys_from_spec() -> bool {
        true
    }

    open spec fn from_spec(e: MediaError) -> GpuError {
        GpuError(e.0)
    }
}

/// A GPU failure seen from the graphics layer keeps its message.
impl From<GpuError> for GraphicsError {
    fn from(e: GpuError) -> (r: GraphicsError) {
        GraphicsError(e.0)
    }
}

impl FromSpecImpl<GpuError> for GraphicsError {
    open spec fn obeys_from_spec() -> bool {
        true
    }

    open spec fn from_spec(e: GpuError) -> GraphicsError {
        GraphicsError(e.0)
    }
}

/// A graphics failure seen from the GPU layer keeps its message.
impl From<GraphicsError> for GpuError {
    fn from(e: GraphicsError) -> (r: GpuError) {
        GpuError(e.0)
    }
}

impl FromSpecImpl<GraphicsError> for GpuError {
    open spec fn obeys_from_spec() -> bool {
        true
    }

    open spec fn from_spec(e: GraphicsError) -> GpuError {
        GpuError(e.0)
    }
}

impl MediaError {
    /// The error of a video subsystem that could not be started.
    pub fn sdl_video_init_failed() -> (e: MediaError)
        ensures
            e.0@ == "Could not init SDL_Video"@,
    {
        MediaError(String::from_str("Could not init SDL_Video"))
    }

    /// The error of a Vulkan library that the windowing system could not load.
    pub fn vulkan_library_load_failed() -> (e: MediaError)
        ensures
            e.0@ == "Could not init SDL_Vulkan_LoadLibrary"@,
    {
        MediaError(String::from_str("Could not init SDL_Vulkan_LoadLibrary"))
    }

    /// The error of a failed start of the windowing system, with the reason
    /// it gave.
    pub fn sdl_init_failed(reason: &str) -> (e: MediaError)
        ensures
            e.0@ == "SDL_Init failed: "@ + reason@,
    {
        let mut message = String::from_str("SDL_Init failed: ");
        message.append(reason);
        MediaError(message)
    }
}

/// Converting a GPU error to a media error and back gives the message it
/// started with.
pub proof fn lemma_gpu_media_round_trip(e: GpuError)
    ensures
        <GpuError as FromSpec<MediaError>>::from_spec(
            <MediaError as FromSpec<GpuError>>::from_spec(e),
        ).0@ == e.0@,
{
}

/// Converting a GPU error to a graphics error and back gives the message it
/// started with.
pub proof fn lemma_gpu_graphics_round_trip(e: GpuError)
    ensures
        <GpuError as FromSpec<GraphicsError>>::from_spec(
            <GraphicsError as FromSpec<GpuError>>::from_spec(e),
        ).0@ == e.0@,
{
}

} // verus!
