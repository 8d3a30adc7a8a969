use ascii_art::config::Configuration;
use ascii_art::frame::Frame;
use ascii_art::playback::{frame_delay_ms, Action, Playback, RenderedFrame, MIN_FRAME_DELAY_MS};
use ascii_art::render::{can_scale, image_to_ascii};
use ascii_art::tone::Contrast;

fn solid(width: u32, height: u32, rgba: [u8; 4]) -> Frame {
    let mut data = Vec::new();
    for _ in 0..(width * height) {
        data.extend_from_slice(&rgba);
    }
    Frame::new(width, height, data).unwrap()
}

fn plain(width: u32, invert: bool) -> Configuration {
    Configuration { width, invert, contrast: Contrast::neutral(), color: false, loop_gif: false }
}

#[test]
fn solid_black_still_renders_as_spaces() {
    let frame = solid(2, 2, [0, 0, 0, 255]);
    let config = plain(4, false);
    assert!(can_scale(&frame, config.width));
    let text = image_to_ascii(&frame, &config);
    assert_eq!(text, "    \n    \n");
}

#[test]
fn solid_black_still_inverted_renders_as_brightest_glyph() {
    let frame = solid(2, 2, [0, 0, 0, 255]);
    let config = plain(4, true);
    assert!(can_scale(&frame, config.width));
    let text = image_to_ascii(&frame, &config);
    assert_eq!(text, "@@@@\n@@@@\n");
}

#[test]
fn single_frame_with_zero_delay_plays_once_for_the_floor() {
    let frame = solid(1, 1, [200, 30, 30, 255]);
    let only = RenderedFrame {
        text: image_to_ascii(&frame, &plain(1, false)),
        delay_ms: frame_delay_ms(0, 1),
    };
    let mut player = Playback::new(vec![only], false, MIN_FRAME_DELAY_MS).unwrap();
    assert_eq!(player.text(0), ":\n");
    assert_eq!(player.step(), Action::Clear);
    assert_eq!(player.step(), Action::Show { frame: 0, millis: 20 });
    assert_eq!(player.step(), Action::Finish);
    assert_eq!(player.step(), Action::Finish);
}
