use rain_simulator::sdl::{Sdl, MAX_WINDOW_SIDE};

#[test]
fn window_sizes_within_the_limit_are_kept() {
    assert_eq!(Sdl::window_size(1280, 720), Some((1280, 720)));
    assert_eq!(Sdl::window_size(MAX_WINDOW_SIDE, MAX_WINDOW_SIDE), Some((40000, 40000)));
    assert_eq!(Sdl::window_size(0, 0), Some((0, 0)));
}

#[test]
fn oversized_windows_are_refused() {
    assert_eq!(Sdl::window_size(40001, 720), None);
    assert_eq!(Sdl::window_size(1280, 40001), None);
    assert_eq!(Sdl::window_size(u32::MAX, u32::MAX), None);
}
