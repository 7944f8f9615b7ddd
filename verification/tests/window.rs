use chessboard::{
    BoardImage, ChessBoard, FullscreenType, WindowMode, WindowSettings, BOARD_OFFSET,
    UNITS_PER_PIXEL, WINDOW_MARGIN,
};

fn mode() -> WindowMode {
    ChessBoard::new(Some(BoardImage {
        handle: (),
        width: 700,
        height: 700,
    }))
    .unwrap()
    .window_mode()
}

#[test]
fn margin_and_offset_in_pixels() {
    assert_eq!(WINDOW_MARGIN as f32 / UNITS_PER_PIXEL as f32, 50.0);
    assert_eq!(BOARD_OFFSET as f32 / UNITS_PER_PIXEL as f32, 25.0);
}

#[test]
fn window_is_the_image_with_a_margin() {
    assert_eq!(
        mode(),
        WindowMode {
            width: 1500,
            height: 1500,
            maximized: false,
            fullscreen_type: FullscreenType::Windowed,
            borderless: false,
            min_width: 1500,
            min_height: 1500,
            max_width: 0,
            max_height: 0,
            resizable: true,
        }
    );
    assert_eq!(mode().width as f32 / UNITS_PER_PIXEL as f32, 750.0);
}

#[test]
fn window_follows_each_side_of_the_image() {
    let mode = ChessBoard::new(Some(BoardImage {
        handle: (),
        width: 640,
        height: 480,
    }))
    .unwrap()
    .window_mode();
    assert_eq!(mode.width, 1380);
    assert_eq!(mode.height, 1060);
    assert_eq!(mode.min_width, 1380);
    assert_eq!(mode.min_height, 1060);
}

#[test]
fn new_settings_ask_for_nothing() {
    let settings = WindowSettings::new(mode());
    assert_eq!(
        settings,
        WindowSettings {
            toggle_fullscreen: false,
            is_fullscreen: false,
            resize_projection: false,
            win_mo: mode(),
        }
    );
}

#[test]
fn nothing_waiting_gives_no_request() {
    let mut settings = WindowSettings::new(mode());
    settings.is_fullscreen = true;
    let before = settings;
    assert_eq!(settings.fullscreen_request(), None);
    assert_eq!(settings, before);
}

#[test]
fn asking_leaves_the_request_waiting() {
    let mut settings = WindowSettings::new(mode());
    settings.toggle_fullscreen = true;
    let before = settings;
    assert_eq!(
        settings.fullscreen_request(),
        Some(FullscreenType::Windowed)
    );
    assert_eq!(settings, before);
    assert_eq!(
        settings.fullscreen_request(),
        Some(FullscreenType::Windowed)
    );
}

#[test]
fn waiting_change_to_fullscreen_asks_for_the_desktop() {
    let mut settings = WindowSettings::new(mode());
    settings.toggle_fullscreen = true;
    settings.is_fullscreen = true;
    assert_eq!(
        settings.fullscreen_request(),
        Some(FullscreenType::Desktop)
    );
    settings.after_fullscreen_change(true);
    assert!(!settings.toggle_fullscreen);
    assert!(settings.is_fullscreen);
}

#[test]
fn waiting_change_back_asks_for_a_window() {
    let mut settings = WindowSettings::new(mode());
    settings.toggle_fullscreen = true;
    settings.resize_projection = true;
    assert_eq!(
        settings.fullscreen_request(),
        Some(FullscreenType::Windowed)
    );
    settings.after_fullscreen_change(true);
    assert!(!settings.toggle_fullscreen);
    assert!(!settings.is_fullscreen);
    assert!(settings.resize_projection);
    assert_eq!(settings.win_mo, mode());
}

#[test]
fn request_is_handed_out_once() {
    let mut settings = WindowSettings::new(mode());
    settings.toggle_fullscreen = true;
    assert!(settings.fullscreen_request().is_some());
    settings.after_fullscreen_change(true);
    assert_eq!(settings.fullscreen_request(), None);
}

#[test]
fn failed_change_keeps_waiting() {
    let mut settings = WindowSettings::new(mode());
    settings.toggle_fullscreen = true;
    settings.is_fullscreen = true;
    settings.resize_projection = true;
    let before = settings;
    assert_eq!(
        settings.fullscreen_request(),
        Some(FullscreenType::Desktop)
    );
    settings.after_fullscreen_change(false);
    assert_eq!(settings, before);
    assert!(settings.toggle_fullscreen);
    assert!(settings.is_fullscreen);
    assert_eq!(
        settings.fullscreen_request(),
        Some(FullscreenType::Desktop)
    );
}

#[test]
fn outcome_with_nothing_waiting_changes_nothing() {
    let mut settings = WindowSettings::new(mode());
    settings.is_fullscreen = true;
    let before = settings;
    settings.after_fullscreen_change(true);
    assert_eq!(settings, before);
    settings.after_fullscreen_change(false);
    assert_eq!(settings, before);
}
