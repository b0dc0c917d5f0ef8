use bhuiz::errors::{GpuError, GraphicsError, LoggerError, MediaError};

#[test]
fn gpu_error_from_string_keeps_message() {
    let e = GpuError::from(String::from("device lost"));
    assert_eq!(e.0, "device lost");
}

#[test]
fn media_error_from_string_keeps_message() {
    let e = MediaError::from(String::from("SDL_Init failed: no display"));
    assert_eq!(e.0, "SDL_Init failed: no display");
}

#[test]
fn gpu_error_into_media_error_keeps_message() {
    let m: MediaError = GpuError(String::from("failed to create Vulkan instance")).into();
    assert_eq!(m.0, "failed to create Vulkan instance");
}

#[test]
fn media_error_into_gpu_error_keeps_message() {
    let g = GpuError::from(MediaError(String::from("window closed")));
    assert_eq!(g.0, "window closed");
}

#[test]
fn gpu_media_round_trip_keeps_message() {
    let original = GpuError(String::from("out of memory"));
    let back = GpuError::from(MediaError::from(original));
    assert_eq!(back.0, "out of memory");
}

#[test]
fn gpu_graphics_conversions_keep_message() {
    let g: GraphicsError = GpuError(String::from("no surface")).into();
    assert_eq!(g.0, "no surface");
    let back = GpuError::from(g);
    assert_eq!(back.0, "no surface");
}

#[test]
fn logger_error_holds_message() {
    let e = LoggerError(String::from("Failed set logger"));
    assert_eq!(e.0, "Failed set logger");
}

#[test]
fn sdl_init_failure_message() {
    let e = MediaError::sdl_init_failed("0x5581");
    assert_eq!(e.0, "SDL_Init failed: 0x5581");
}

#[test]
fn media_startup_failure_messages() {
    assert_eq!(MediaError::sdl_video_init_failed().0, "Could not init SDL_Video");
    assert_eq!(MediaError::vulkan_library_load_failed().0, "Could not init SDL_Vulkan_LoadLibrary");
}
