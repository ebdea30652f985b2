use micro_visualizer::text::{
    decimal_string, format_time, fraction_digits_string, padded_decimal_string, seconds_string,
};
use micro_visualizer::{
    Chapter, Chapters, Command, MainState, RenderingSettings, Resolution, Seconds, SoundState,
};

/// The draw of one tick, the visualizer drawing what it is asked to.
fn draw(state: &mut MainState, position: Seconds) -> Option<u64> {
    let frame = state.frame_to_draw(position);
    if let Some(frame) = frame {
        state.frame_drawn(frame);
    }
    frame
}

fn chapter(name: &str, start_frame: u64) -> Chapter {
    Chapter { name: name.to_string(), start_frame }
}

fn session(chapters: Vec<Chapter>) -> MainState {
    MainState::new(
        "music/track.flac".to_string(),
        60,
        Resolution { width: 3840, height: 2160 },
        Chapters(chapters),
        Seconds::from_secs(10),
    )
}

/// A session whose middle chapter spans the frames 100 to 200, set to export it.
fn middle_chapter_export() -> MainState {
    let mut state = session(vec![chapter("A", 0), chapter("B", 100), chapter("C", 201)]);
    state.rendering_settings = RenderingSettings { start_chapter_index: 1, end_chapter_index: 1 };
    state
}

#[test]
fn rendering_range_spans_the_chosen_chapters() {
    let mut state = session(vec![chapter("A", 0), chapter("B", 100), chapter("C", 201)]);
    assert_eq!(state.rendering_range(), (0, 600));
    state.rendering_settings = RenderingSettings { start_chapter_index: 1, end_chapter_index: 1 };
    assert_eq!(state.rendering_range(), (100, 200));
    state.rendering_settings = RenderingSettings { start_chapter_index: 0, end_chapter_index: 1 };
    assert_eq!(state.rendering_range(), (0, 200));
    state.rendering_settings = RenderingSettings { start_chapter_index: 2, end_chapter_index: 2 };
    assert_eq!(state.rendering_range(), (201, 600));
    state.rendering_settings = RenderingSettings { start_chapter_index: 2, end_chapter_index: 0 };
    assert_eq!(state.rendering_range(), (201, 99));
}

#[test]
fn rendering_range_without_chapters_is_the_whole_track() {
    assert_eq!(session(Vec::new()).rendering_range(), (0, 600));
}

#[test]
fn render_enters_the_export_at_its_first_frame() {
    let mut state = middle_chapter_export();
    state.mode = SoundState::PlayingOrPaused { in_progress_seek: Some(Seconds::from_secs(1)) };
    let before = state.clone();
    state.render();
    assert_eq!(
        state,
        MainState {
            mode: SoundState::Rendering { start_frame: 100, end_frame: 200, current_frame: 100 },
            ..before
        }
    );
    assert!(state.is_rendering());
    assert_eq!(state.current_frame(Seconds::from_secs(1)), 100);
}

#[test]
fn export_draws_and_writes_every_frame_once() {
    let mut state = middle_chapter_export();
    state.render();
    let mut drawn: Vec<u64> = Vec::new();
    let mut ticks: u64 = 0;
    loop {
        let frame_before = state.current_frame(Seconds::from_secs(0));
        assert_eq!(frame_before, 100 + ticks);
        if let Some(frame) = draw(&mut state, Seconds::from_secs(0)) {
            drawn.push(frame);
        }
        let command = state.frame_written(true);
        ticks += 1;
        if let Some(command) = command {
            assert_eq!(command, Command::Reload);
            assert!(state.is_rendering());
            state.performed(command);
            break;
        }
        assert_eq!(
            state.mode,
            SoundState::Rendering {
                start_frame: 100,
                end_frame: 200,
                current_frame: frame_before + 1
            }
        );
        assert!(ticks < 1_000);
    }
    assert_eq!(ticks, 101);
    assert_eq!(drawn.len(), 101);
    let expected: Vec<u64> = (100..=200).collect();
    assert_eq!(drawn, expected);
    assert_eq!(state.mode, SoundState::Stopped { start_position: Seconds::from_secs(0) });
    assert_eq!(state.previous_frame, Some(200));
}

#[test]
fn export_stops_at_once_when_a_write_fails() {
    let mut state = middle_chapter_export();
    state.render();
    let mut drawn: Vec<u64> = Vec::new();
    loop {
        let frame = state.current_frame(Seconds::from_secs(0));
        if let Some(frame) = draw(&mut state, Seconds::from_secs(0)) {
            drawn.push(frame);
        }
        let before = state.clone();
        let command = state.frame_written(frame != 150);
        if frame == 150 {
            assert_eq!(command, Some(Command::Reload));
            assert_eq!(state, before);
            state.performed(Command::Reload);
            assert_eq!(
                state,
                MainState {
                    mode: SoundState::Stopped { start_position: Seconds::from_secs(0) },
                    ..before
                }
            );
            break;
        }
        assert_eq!(command, None);
        assert!(frame < 150);
    }
    assert_eq!(drawn.last(), Some(&150));
    assert_eq!(drawn.len(), 51);
    assert!(!state.is_rendering());
}

#[test]
fn export_from_frame_zero_of_a_new_session_draws_frame_zero() {
    let mut state = session(Vec::new());
    state.render();
    assert_eq!(
        state.mode,
        SoundState::Rendering { start_frame: 0, end_frame: 600, current_frame: 0 }
    );
    let mut drawn: u64 = 0;
    let mut written: u64 = 0;
    loop {
        if let Some(frame) = draw(&mut state, Seconds::from_secs(0)) {
            assert_eq!(frame, drawn);
            drawn += 1;
        }
        written += 1;
        if state.frame_written(true).is_some() {
            break;
        }
    }
    assert_eq!(written, 601);
    assert_eq!(drawn, 601);
}

#[test]
fn export_from_the_frame_drawn_last_does_not_draw_it_again() {
    let mut state = middle_chapter_export();
    state.mode = SoundState::Stopped { start_position: Seconds::from_secs(2) };
    assert_eq!(draw(&mut state, Seconds::from_secs(0)), Some(120));
    state.rendering_settings = RenderingSettings { start_chapter_index: 1, end_chapter_index: 2 };
    state.mode = SoundState::Stopped { start_position: micro_visualizer::Frames(100).to_seconds(60) };
    assert_eq!(draw(&mut state, Seconds::from_secs(0)), Some(100));
    state.render();
    assert_eq!(draw(&mut state, Seconds::from_secs(0)), None);
    assert_eq!(state.frame_written(true), None);
    assert_eq!(draw(&mut state, Seconds::from_secs(0)), Some(101));
}

#[test]
fn export_of_an_empty_range_writes_one_frame() {
    let mut state = session(vec![chapter("A", 0), chapter("B", 100), chapter("C", 201)]);
    state.rendering_settings = RenderingSettings { start_chapter_index: 2, end_chapter_index: 0 };
    state.render();
    assert_eq!(draw(&mut state, Seconds::from_secs(0)), Some(201));
    assert_eq!(state.frame_written(true), Some(Command::Reload));
    state.performed(Command::Reload);
    assert_eq!(state.mode, SoundState::Stopped { start_position: Seconds::from_secs(0) });
}

#[test]
fn export_ends_at_the_largest_frame_without_overflow() {
    let mut state = session(Vec::new());
    state.mode = SoundState::Rendering {
        start_frame: u64::MAX - 1,
        end_frame: u64::MAX,
        current_frame: u64::MAX - 1,
    };
    assert_eq!(state.frame_written(true), None);
    assert_eq!(
        state.mode,
        SoundState::Rendering {
            start_frame: u64::MAX - 1,
            end_frame: u64::MAX,
            current_frame: u64::MAX
        }
    );
    assert_eq!(state.frame_written(true), Some(Command::Reload));
}

#[test]
fn frame_written_outside_an_export_does_nothing() {
    let mut state = session(Vec::new());
    let before = state.clone();
    assert_eq!(state.frame_written(true), None);
    assert_eq!(state.frame_written(false), None);
    assert_eq!(state, before);
}

#[test]
fn stop_rendering_leaves_the_session_stopped_at_the_start() {
    let mut state = middle_chapter_export();
    state.render();
    state.frame_written(true);
    let before = state.clone();
    state.stop_rendering();
    assert_eq!(
        state,
        MainState { mode: SoundState::Stopped { start_position: Seconds::from_secs(0) }, ..before }
    );
}

#[test]
fn draw_is_asked_for_once_per_frame() {
    let mut state = session(Vec::new());
    state.mode = SoundState::PlayingOrPaused { in_progress_seek: None };
    assert_eq!(draw(&mut state, Seconds::from_secs(2)), Some(120));
    assert_eq!(state.previous_frame, Some(120));
    assert_eq!(draw(&mut state, Seconds::from_secs(2)), None);
    assert_eq!(draw(&mut state, Seconds { whole: 1, fraction: u64::MAX }), None);
    assert_eq!(draw(&mut state, Seconds { whole: 2, fraction: 1 }), Some(121));
    assert_eq!(draw(&mut state, Seconds { whole: 2, fraction: 1 }), None);
    assert_eq!(state.previous_frame, Some(121));
}

#[test]
fn draw_is_asked_for_again_while_the_visualizer_has_not_drawn() {
    let mut state = session(Vec::new());
    state.mode = SoundState::PlayingOrPaused { in_progress_seek: None };
    let before = state.clone();
    assert_eq!(state.frame_to_draw(Seconds::from_secs(2)), Some(120));
    assert_eq!(state.frame_to_draw(Seconds::from_secs(2)), Some(120));
    assert_eq!(state, before);
    state.frame_drawn(120);
    assert_eq!(state, MainState { previous_frame: Some(120), ..before });
    assert_eq!(state.frame_to_draw(Seconds::from_secs(2)), None);
}

#[test]
fn first_tick_of_a_new_session_draws_frame_zero() {
    let mut state = session(Vec::new());
    assert_eq!(draw(&mut state, Seconds::from_secs(5)), Some(0));
    assert_eq!(draw(&mut state, Seconds::from_secs(5)), None);
}

#[test]
fn encoder_arguments_are_the_command_line() {
    let state = middle_chapter_export();
    let expected: Vec<String> = [
        "-y",
        "-f",
        "rawvideo",
        "-vcodec",
        "rawvideo",
        "-s",
        "3840x2160",
        "-pix_fmt",
        "rgba",
        "-r",
        "60",
        "-i",
        "-",
        "-ss",
        "1.666666666s",
        "-i",
        "music/track.flac",
        "-b:a",
        "320k",
        "-c:v",
        "libx264",
        "-r",
        "60",
        "-shortest",
        "out/video.mp4",
    ]
    .iter()
    .map(|argument| argument.to_string())
    .collect();
    assert_eq!(state.encoder_arguments("out/video.mp4"), expected);
}

#[test]
fn encoder_arguments_of_the_whole_track_start_at_zero() {
    let state = MainState::new(
        "a.wav".to_string(),
        24,
        Resolution { width: 640, height: 480 },
        Chapters(Vec::new()),
        Seconds::from_secs(1),
    );
    let arguments = state.encoder_arguments("b.mp4");
    assert_eq!(arguments.len(), 25);
    assert_eq!(arguments[6], "640x480");
    assert_eq!(arguments[10], "24");
    assert_eq!(arguments[14], "0s");
    assert_eq!(arguments[16], "a.wav");
    assert_eq!(arguments[22], "24");
    assert_eq!(arguments[24], "b.mp4");
}

#[test]
fn readback_buffer_holds_four_bytes_a_pixel() {
    let mut state = session(Vec::new());
    state.video_resolution = Resolution { width: 64, height: 32 };
    let buffer = state.new_readback_buffer();
    assert_eq!(buffer, Some(vec![0u8; 64 * 32 * 4]));
    state.video_resolution = Resolution { width: 0, height: 32 };
    assert_eq!(state.new_readback_buffer(), Some(Vec::new()));
}

#[test]
fn readback_buffer_is_refused_where_it_cannot_be_addressed() {
    let mut state = session(Vec::new());
    state.video_resolution = Resolution { width: u32::MAX, height: u32::MAX };
    assert_eq!(state.new_readback_buffer(), None);
}

#[test]
fn encoder_arguments_start_at_the_shortest_decimal() {
    let mut state = session(vec![chapter("A", 0), chapter("B", 150), chapter("C", 300)]);
    state.rendering_settings = RenderingSettings { start_chapter_index: 1, end_chapter_index: 1 };
    assert_eq!(state.encoder_arguments("b.mp4")[14], "2.5s");
    state.rendering_settings = RenderingSettings { start_chapter_index: 2, end_chapter_index: 2 };
    assert_eq!(state.encoder_arguments("b.mp4")[14], "5s");
}

#[test]
fn decimal_text() {
    assert_eq!(decimal_string(0), "0");
    assert_eq!(decimal_string(7), "7");
    assert_eq!(decimal_string(10), "10");
    assert_eq!(decimal_string(3840), "3840");
    assert_eq!(decimal_string(1_234_567_890), "1234567890");
    assert_eq!(decimal_string(18_446_744_073_709_551_615), "18446744073709551615");
    assert_eq!(decimal_string(u128::MAX), "340282366920938463463374607431768211455");
}

#[test]
fn padded_decimal_text() {
    assert_eq!(padded_decimal_string(0, 9), "000000000");
    assert_eq!(padded_decimal_string(42, 9), "000000042");
    assert_eq!(padded_decimal_string(123_456_789, 9), "123456789");
    assert_eq!(padded_decimal_string(123_456_789, 4), "6789");
    assert_eq!(padded_decimal_string(5, 0), "");
}

#[test]
fn fraction_digits_have_no_zero_at_the_end() {
    assert_eq!(fraction_digits_string(500_000_000, 9), "5");
    assert_eq!(fraction_digits_string(666_666_666, 9), "666666666");
    assert_eq!(fraction_digits_string(1, 9), "000000001");
    assert_eq!(fraction_digits_string(10, 9), "00000001");
    assert_eq!(fraction_digits_string(120_300_000, 9), "1203");
    assert_eq!(fraction_digits_string(0, 9), "");
}

#[test]
fn seconds_text() {
    assert_eq!(seconds_string(Seconds::from_secs(0)), "0s");
    assert_eq!(seconds_string(Seconds::from_millis(2_500)), "2.5s");
    assert_eq!(seconds_string(Seconds::from_secs(61)), "61s");
    assert_eq!(seconds_string(Seconds::from_millis(250)), "0.25s");
    assert_eq!(seconds_string(Seconds { whole: 1, fraction: 12_297_829_382_473_034_410 }), "1.666666666s");
    assert_eq!(seconds_string(Seconds { whole: 3, fraction: 1 }), "3s");
    assert_eq!(seconds_string(Seconds { whole: 3, fraction: u64::MAX }), "3.999999999s");
    assert_eq!(
        seconds_string(Seconds { whole: 18_446_744_073_709_551_615, fraction: 0 }),
        "18446744073709551615s"
    );
}

#[test]
fn time_text() {
    assert_eq!(format_time(Seconds::from_secs(0)), "0:00:00.00");
    assert_eq!(format_time(Seconds::from_millis(2_500)), "0:00:02.50");
    assert_eq!(format_time(Seconds::from_secs(59)), "0:00:59.00");
    assert_eq!(format_time(Seconds::from_secs(60)), "0:01:00.00");
    assert_eq!(format_time(Seconds::from_secs(3_723)), "1:02:03.00");
    assert_eq!(format_time(Seconds::from_millis(3_723_450)), "1:02:03.44");
    assert_eq!(format_time(Seconds { whole: 3_723, fraction: u64::MAX }), "1:02:03.99");
    assert_eq!(format_time(Seconds::from_secs(360_000)), "100:00:00.00");
    assert_eq!(format_time(Seconds::from_secs(-5)), "0:00:00.00");
    assert_eq!(format_time(Seconds { whole: -1, fraction: u64::MAX }), "0:00:00.00");
}
