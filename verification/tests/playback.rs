use ascii_art::playback::{
    effective_delay_ms, frame_delay_ms, Action, Phase, Playback, RenderedFrame,
    MIN_FRAME_DELAY_MS,
};

fn frames(delays: &[u64]) -> Vec<RenderedFrame> {
    delays
        .iter()
        .enumerate()
        .map(|(i, delay)| RenderedFrame { text: format!("frame {}\n", i), delay_ms: *delay })
        .collect()
}

#[test]
fn minimum_frame_delay_is_twenty_milliseconds() {
    assert_eq!(MIN_FRAME_DELAY_MS, 20);
}

#[test]
fn declared_delay_is_the_fraction_in_whole_milliseconds() {
    assert_eq!(frame_delay_ms(100, 1), 100);
    assert_eq!(frame_delay_ms(0, 1), 0);
    assert_eq!(frame_delay_ms(10, 3), 3);
    assert_eq!(frame_delay_ms(1, 3), 0);
    assert_eq!(frame_delay_ms(u32::MAX, 1), 4_294_967_295);
    assert_eq!(frame_delay_ms(u32::MAX, u32::MAX), 1);
}

#[test]
fn effective_delay_is_the_longer_of_declared_and_floor() {
    assert_eq!(effective_delay_ms(0, MIN_FRAME_DELAY_MS), 20);
    assert_eq!(effective_delay_ms(19, MIN_FRAME_DELAY_MS), 20);
    assert_eq!(effective_delay_ms(20, MIN_FRAME_DELAY_MS), 20);
    assert_eq!(effective_delay_ms(21, MIN_FRAME_DELAY_MS), 21);
    assert_eq!(effective_delay_ms(100, MIN_FRAME_DELAY_MS), 100);
    assert_eq!(effective_delay_ms(u64::MAX, MIN_FRAME_DELAY_MS), u64::MAX);
    assert_eq!(effective_delay_ms(5, 0), 5);
    for declared in 0..200u64 {
        assert_eq!(effective_delay_ms(declared, 20), declared.max(20));
    }
}

#[test]
fn player_needs_a_frame() {
    assert!(Playback::new(Vec::new(), false, MIN_FRAME_DELAY_MS).is_none());
    assert!(Playback::new(Vec::new(), true, MIN_FRAME_DELAY_MS).is_none());
    let player = Playback::new(frames(&[30]), true, 5).unwrap();
    assert_eq!(player.frames.len(), 1);
    assert_eq!(player.frames[0].delay_ms, 30);
    assert_eq!(player.text(0), "frame 0\n");
    assert!(player.looping);
    assert_eq!(player.floor_ms, 5);
    assert_eq!(player.phase, Phase::Start);
}

#[test]
fn single_pass_shows_every_frame_once_in_order() {
    let mut player = Playback::new(frames(&[100, 0, 19, 20, 40]), false, MIN_FRAME_DELAY_MS).unwrap();
    assert_eq!(player.step(), Action::Clear);
    assert_eq!(player.step(), Action::Show { frame: 0, millis: 100 });
    assert_eq!(player.step(), Action::Show { frame: 1, millis: 20 });
    assert_eq!(player.step(), Action::Show { frame: 2, millis: 20 });
    assert_eq!(player.step(), Action::Show { frame: 3, millis: 20 });
    assert_eq!(player.step(), Action::Show { frame: 4, millis: 40 });
    for _ in 0..10 {
        assert_eq!(player.step(), Action::Finish);
        assert_eq!(player.phase, Phase::Done);
    }
    assert_eq!(player.frames.len(), 5);
    assert_eq!(player.text(4), "frame 4\n");
}

#[test]
fn looping_player_rewinds_and_never_finishes() {
    let mut player = Playback::new(frames(&[10, 50]), true, MIN_FRAME_DELAY_MS).unwrap();
    assert_eq!(player.step(), Action::Clear);
    for _ in 0..25 {
        assert_eq!(player.step(), Action::Show { frame: 0, millis: 20 });
        assert_eq!(player.step(), Action::Show { frame: 1, millis: 50 });
        assert_eq!(player.phase, Phase::PassEnd);
        assert_eq!(player.step(), Action::Rewind);
    }
}

#[test]
fn screen_is_cleared_once_only() {
    let mut player = Playback::new(frames(&[25]), true, MIN_FRAME_DELAY_MS).unwrap();
    let mut clears = 0;
    for _ in 0..50 {
        if player.step() == Action::Clear {
            clears += 1;
        }
    }
    assert_eq!(clears, 1);
}

#[test]
fn floor_is_a_setting_of_the_player() {
    let mut player = Playback::new(frames(&[0, 70, 200]), false, 100).unwrap();
    assert_eq!(player.step(), Action::Clear);
    assert_eq!(player.step(), Action::Show { frame: 0, millis: 100 });
    assert_eq!(player.step(), Action::Show { frame: 1, millis: 100 });
    assert_eq!(player.step(), Action::Show { frame: 2, millis: 200 });
    assert_eq!(player.step(), Action::Finish);
}
