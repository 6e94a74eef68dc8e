use vkrender::render_config::{
    preset, FramerateMode, PresentMode, RenderConfig, ResolutionMode, PRESET_COUNT,
};

fn with_mode(mode: PresentMode) -> RenderConfig {
    let mut c = RenderConfig::default();
    c.select_present_mode(mode);
    c
}

#[test]
fn default_render_config() {
    let c = RenderConfig::default();
    assert_eq!(c.present_mode(), PresentMode::Fifo);
    assert_eq!(c.framerate.mode, FramerateMode::Unlimited);
    assert_eq!(c.resolution.mode, ResolutionMode::Fixed);
    assert_eq!(c.resolution.target_res, [1920, 1080]);
    assert_eq!(c.resolution.fixed_res, [1920, 1080]);
}

#[test]
fn supported_mode_is_kept() {
    let mut c = with_mode(PresentMode::Mailbox);
    c.fallback_present_mode(&[PresentMode::Fifo, PresentMode::Mailbox]);
    assert_eq!(c.present_mode(), PresentMode::Mailbox);
}

#[test]
fn immediate_falls_back_to_mailbox_then_fifo() {
    let mut c = with_mode(PresentMode::Immediate);
    c.fallback_present_mode(&[PresentMode::Fifo, PresentMode::Mailbox]);
    assert_eq!(c.present_mode(), PresentMode::Mailbox);
    let mut c = with_mode(PresentMode::Immediate);
    c.fallback_present_mode(&[PresentMode::Fifo, PresentMode::FifoRelaxed]);
    assert_eq!(c.present_mode(), PresentMode::Fifo);
}

#[test]
fn mailbox_falls_back_to_immediate_then_fifo() {
    let mut c = with_mode(PresentMode::Mailbox);
    c.fallback_present_mode(&[PresentMode::Immediate, PresentMode::Fifo]);
    assert_eq!(c.present_mode(), PresentMode::Immediate);
    let mut c = with_mode(PresentMode::Mailbox);
    c.fallback_present_mode(&[PresentMode::Fifo]);
    assert_eq!(c.present_mode(), PresentMode::Fifo);
}

#[test]
fn fifo_relaxed_and_fifo_fall_back_to_fifo() {
    let mut c = with_mode(PresentMode::FifoRelaxed);
    c.fallback_present_mode(&[PresentMode::Immediate, PresentMode::Mailbox]);
    assert_eq!(c.present_mode(), PresentMode::Fifo);
    let mut c = with_mode(PresentMode::Fifo);
    c.fallback_present_mode(&[]);
    assert_eq!(c.present_mode(), PresentMode::Fifo);
}

#[test]
fn fallback_twice_is_fallback_once() {
    let supported = [PresentMode::Immediate, PresentMode::FifoRelaxed];
    let mut c = with_mode(PresentMode::Mailbox);
    c.fallback_present_mode(&supported);
    let once = c.present_mode();
    c.fallback_present_mode(&supported);
    assert_eq!(c.present_mode(), once);
    assert_eq!(once, PresentMode::Immediate);
}

#[test]
fn selecting_present_mode_reports_change() {
    let mut c = RenderConfig::default();
    assert!(!c.select_present_mode(PresentMode::Fifo));
    assert!(c.select_present_mode(PresentMode::Mailbox));
    assert_eq!(c.present_mode(), PresentMode::Mailbox);
    assert!(!c.select_present_mode(PresentMode::Mailbox));
}

#[test]
fn resize_changes_resolution_only_when_fitting_window() {
    let mut c = RenderConfig::default();
    c.window_resized([800, 600]);
    assert_eq!(c.resolution.target_res, [1920, 1080]);
    c.select_fit_window([1024, 768]);
    assert_eq!(c.resolution.mode, ResolutionMode::FitWindow);
    assert_eq!(c.resolution.target_res, [1024, 768]);
    c.window_resized([800, 600]);
    assert_eq!(c.resolution.target_res, [800, 600]);
    c.select_fixed();
    assert_eq!(c.resolution.mode, ResolutionMode::Fixed);
    assert_eq!(c.resolution.target_res, [1920, 1080]);
}

#[test]
fn set_resolution_sets_target() {
    let mut c = RenderConfig::default();
    c.set_resolution([10, 20]);
    assert_eq!(c.resolution.target_res, [10, 20]);
    assert_eq!(c.resolution.fixed_res, [1920, 1080]);
}

#[test]
fn presets_and_their_indices() {
    let expected = [[16, 9], [160, 90], [320, 180], [1920, 1080], [2560, 1440]];
    assert_eq!(PRESET_COUNT, 5);
    for (i, e) in expected.iter().enumerate() {
        assert_eq!(preset(i), *e);
    }
    let mut c = RenderConfig::default();
    assert_eq!(c.fixed_preset_index(), 3);
    c.choose_preset(1);
    assert_eq!(c.fixed_preset_index(), 1);
    assert_eq!(c.resolution.fixed_res, [160, 90]);
    assert_eq!(c.resolution.target_res, [160, 90]);
    c.resolution.fixed_res = [123, 45];
    assert_eq!(c.fixed_preset_index(), 0);
}

#[test]
fn choosing_preset_in_fit_window_mode_keeps_target() {
    let mut c = RenderConfig::default();
    c.select_fit_window([640, 480]);
    c.choose_preset(4);
    assert_eq!(c.resolution.fixed_res, [2560, 1440]);
    assert_eq!(c.resolution.target_res, [640, 480]);
    c.select_fixed();
    assert_eq!(c.resolution.target_res, [2560, 1440]);
}

#[test]
fn framerate_mode_selection() {
    let mut c = RenderConfig::default();
    c.select_framerate_mode(FramerateMode::Capped);
    assert_eq!(c.framerate.mode, FramerateMode::Capped);
    assert_eq!(c.present_mode(), PresentMode::Fifo);
}
