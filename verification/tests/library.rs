use audio_player::block::{block_lines, connected_block_widget};
use audio_player::errors::AudioError;
use audio_player::input::{handle_event, AppState, InputEvent, KeyInput};
use audio_player::layout::{
    assemble_layout, frame_layout, inner_rect, main_columns, panel_rows, screen_rows, LayoutConstraint,
    Rect,
};
use audio_player::media::{next_packet_action, open_track};
use audio_player::playback::{fill_frames, next_write_buffer, wrap_cursor, WRITE_BUFFER_LEN};
use audio_player::samples::{
    resolve_sample_rate, PacketAction, PacketRead, SampleCollector, DEFAULT_SAMPLE_RATE,
};
use audio_player::song::{LocalSong, OnlineSong, Song, SongType};
use audio_player::waveform::{max_sparkline_height, random_waveform};
use ratatui::layout::Margin;
use rand::{rngs::StdRng, SeedableRng};
use std::path::PathBuf;

fn looped(pcm: &[u8], start: usize, count: usize) -> Vec<u8> {
    (0..count).map(|i| pcm[(start + i) % pcm.len()]).collect()
}

#[test]
fn wrap_cursor_keeps_in_range_cursor() {
    assert_eq!(wrap_cursor(2, 5), 2);
    assert_eq!(wrap_cursor(0, 5), 0);
}

#[test]
fn wrap_cursor_brings_back_overrun_cursor() {
    assert_eq!(wrap_cursor(5, 5), 0);
    assert_eq!(wrap_cursor(12, 5), 2);
    assert_eq!(wrap_cursor(wrap_cursor(12, 5), 5), 2);
}

#[test]
fn fill_frames_loops_over_the_data() {
    let pcm = [1u8, 2, 3];
    let (frames, cursor) = fill_frames(&pcm, 1, 5);
    assert_eq!(frames, vec![2, 3, 1, 2, 3]);
    assert_eq!(cursor, 0);
}

#[test]
fn fill_frames_stops_before_the_end() {
    let pcm = [10u8, 20, 30, 40];
    let (frames, cursor) = fill_frames(&pcm, 0, 2);
    assert_eq!(frames, vec![10, 20]);
    assert_eq!(cursor, 2);
}

#[test]
fn fill_frames_with_no_frames_leaves_cursor() {
    let pcm: [u8; 0] = [];
    let (frames, cursor) = fill_frames(&pcm, 7, 0);
    assert!(frames.is_empty());
    assert_eq!(cursor, 7);
}

#[test]
fn fill_frames_works_on_float_samples() {
    let pcm = [0.5f32, -0.5, 0.25];
    let (frames, cursor) = fill_frames(&pcm, 2, 4);
    assert_eq!(frames, vec![0.25, 0.5, -0.5, 0.25]);
    assert_eq!(cursor, 0);
}

#[test]
fn fill_frames_in_two_steps_equals_one_step() {
    let pcm: Vec<u8> = (0..7).collect();
    let (first, mid) = fill_frames(&pcm, 3, 5);
    let (second, end) = fill_frames(&pcm, mid, 9);
    let (whole, end_whole) = fill_frames(&pcm, 3, 14);
    let mut joined = first.clone();
    joined.extend_from_slice(&second);
    assert_eq!(joined, whole);
    assert_eq!(end, end_whole);
}

#[test]
fn fill_frames_repeats_with_period_of_data_length() {
    let pcm = [4u8, 5, 6, 7, 8];
    let (frames, cursor) = fill_frames(&pcm, 3, 5);
    assert_eq!(cursor, 3);
    let (longer, _) = fill_frames(&pcm, 3, 12);
    for i in 0..7 {
        assert_eq!(longer[i + 5], longer[i]);
    }
    assert_eq!(frames, vec![7, 8, 4, 5, 6]);
}

#[test]
fn next_write_buffer_wraps_cursor_first() {
    let pcm = [1u8, 2, 3];
    let (buffer, cursor) = next_write_buffer(&pcm, 10);
    assert_eq!(buffer.len(), WRITE_BUFFER_LEN);
    assert_eq!(buffer, looped(&pcm, 1, 2048));
    assert_eq!(&buffer[..4], &[2, 3, 1, 2]);
    assert_eq!(cursor, (1 + 2048) % 3);
}

#[test]
fn next_write_buffer_from_in_range_cursor() {
    let pcm: Vec<u8> = (0..=255).collect();
    let (buffer, cursor) = next_write_buffer(&pcm, 100);
    assert_eq!(buffer, looped(&pcm, 100, 2048));
    assert_eq!(cursor, (100 + 2048) % 256);
}

#[test]
fn collector_keeps_only_its_track() {
    let mut collector: SampleCollector<u8> = SampleCollector::new(2);
    assert_eq!(collector.track_id(), 2);
    assert!(collector.accepts(2));
    assert!(!collector.accepts(1));
    collector.push_decoded(&[1, 2, 3]);
    collector.push_decoded(&[]);
    collector.push_decoded(&[4]);
    let (samples, rate) = collector.finish(Some(48000));
    assert_eq!(samples, vec![1, 2, 3, 4]);
    assert_eq!(rate, 48000);
}

#[test]
fn collector_defaults_sample_rate() {
    let collector: SampleCollector<f32> = SampleCollector::new(0);
    let (samples, rate) = collector.finish(None);
    assert!(samples.is_empty());
    assert_eq!(rate, 44100);
}

#[test]
fn sample_rate_resolution() {
    assert_eq!(resolve_sample_rate(None), DEFAULT_SAMPLE_RATE);
    assert_eq!(resolve_sample_rate(Some(22050)), 22050);
}

#[test]
fn app_state_starts_running() {
    let state = AppState::new();
    assert!(!state.exit);
}

#[test]
fn quit_key_sets_exit() {
    let mut state = AppState::new();
    handle_event(&mut state, &InputEvent::Key(KeyInput::Char('q')));
    assert!(state.exit);
}

#[test]
fn other_events_do_not_set_exit() {
    let mut state = AppState::new();
    let events = vec![
        InputEvent::FocusGained,
        InputEvent::FocusLost,
        InputEvent::Key(KeyInput::Char('w')),
        InputEvent::Key(KeyInput::Char('Q')),
        InputEvent::Key(KeyInput::Enter),
        InputEvent::Key(KeyInput::Other),
        InputEvent::Mouse,
        InputEvent::Paste("q".to_string()),
        InputEvent::Resize(80, 24),
    ];
    for event in &events {
        handle_event(&mut state, event);
        assert!(!state.exit);
    }
}

#[test]
fn exit_stays_set() {
    let mut state = AppState::new();
    handle_event(&mut state, &InputEvent::Key(KeyInput::Char('q')));
    handle_event(&mut state, &InputEvent::Key(KeyInput::Enter));
    handle_event(&mut state, &InputEvent::Resize(1, 1));
    assert!(state.exit);
}

#[test]
fn error_messages() {
    assert_eq!(
        AudioError::OpenFile("not found".to_string()).message(),
        "failed to open file: not found"
    );
    assert_eq!(
        AudioError::UnsupportedFormat("x".to_string()).message(),
        "input format not supported: x"
    );
    assert_eq!(AudioError::NoDefaultTrack.message(), "no default track");
    assert_eq!(
        AudioError::UnsupportedCodec("y".to_string()).message(),
        "input codec not supported: y"
    );
    assert_eq!(
        AudioError::PacketDecode("bad".to_string()).message(),
        "packet failed to decode: bad"
    );
    assert_eq!(
        AudioError::NoOutputDevice.message(),
        "No output device available, you shouldn't be using this if you got nothing that can output sound."
    );
    assert_eq!(AudioError::NoDevice.message(), "oops tried to play audio with no device!");
    assert_eq!(
        AudioError::StreamBuild("z".to_string()).message(),
        "failed to build stream: z"
    );
}

#[test]
fn block_lines_of_a_small_block() {
    let lines = block_lines("ab", 2, 6, 4, 1);
    assert_eq!(lines, vec!["┌ab──┐", "├────┤", "│    │", "└────┘"]);
}

#[test]
fn block_lines_with_room_above_separator() {
    let lines = block_lines("T", 1, 5, 7, 2);
    assert_eq!(
        lines,
        vec!["┌T──┐", "│   │", "│   │", "├───┤", "│   │", "│   │", "└───┘"]
    );
}

#[test]
fn block_lines_of_a_too_narrow_block() {
    let lines = block_lines("Title", 5, 3, 2, 0);
    assert_eq!(lines, vec!["┌Title┐", "├─┤", "└─┘"]);
    let lines = block_lines("", 0, 0, 0, 0);
    assert_eq!(lines, vec!["┌┐", "├┤", "└┘"]);
}

#[test]
fn connected_block_of_song_panel() {
    let area = Rect { x: 3, y: 1, width: 20, height: 8 };
    let lines = connected_block_widget("Song Info", area, 3);
    assert_eq!(lines.len(), 8);
    assert_eq!(lines[0], format!("┌Song Info{}┐", "─".repeat(9)));
    assert_eq!(lines[1], format!("│{}│", " ".repeat(18)));
    assert_eq!(lines[2], format!("│{}│", " ".repeat(18)));
    assert_eq!(lines[3], format!("├{}┤", "─".repeat(18)));
    assert_eq!(lines[6], format!("│{}│", " ".repeat(18)));
    assert_eq!(lines[7], format!("└{}┘", "─".repeat(18)));
    for line in &lines {
        assert_eq!(line.chars().count(), 20);
    }
}

#[test]
fn connected_block_title_joins_lines() {
    let area = Rect { x: 0, y: 0, width: 12, height: 5 };
    let lines = connected_block_widget("Song\nInfo", area, 1);
    assert_eq!(lines[0], "┌SongInfo──┐");
}

#[test]
fn connected_block_title_counts_wide_cells() {
    let area = Rect { x: 0, y: 0, width: 10, height: 4 };
    let lines = connected_block_widget("日本", area, 1);
    assert_eq!(lines[0], "┌日本────┐");
}

fn vertical_part(part: Rect, area: Rect) -> bool {
    part.x == area.x
        && part.width == area.width
        && area.y <= part.y
        && part.y as u32 + part.height as u32 <= area.y as u32 + area.height as u32
}

fn horizontal_part(part: Rect, area: Rect) -> bool {
    part.y == area.y
        && part.height == area.height
        && area.x <= part.x
        && part.x as u32 + part.width as u32 <= area.x as u32 + area.width as u32
}

#[test]
fn frame_layout_parts_lie_within_their_areas() {
    for (w, h) in [(80u16, 24u16), (120, 40), (10, 6), (0, 0), (200, 3), (80, 4), (7, 5)] {
        let screen = Rect { x: 2, y: 1, width: w, height: h };
        let layout = frame_layout(screen);
        assert!(vertical_part(layout.title, screen));
        assert!(vertical_part(layout.main, screen));
        assert!(vertical_part(layout.status, screen));
        assert!(horizontal_part(layout.songs_list, layout.main));
        assert!(horizontal_part(layout.song_panel, layout.main));
        let inside = inner_rect(layout.song_panel, 1, 1);
        assert!(vertical_part(layout.waveform, inside));
        assert!(vertical_part(layout.song_info, inside));
    }
}

#[test]
fn frame_layout_of_a_common_terminal() {
    let layout = frame_layout(Rect { x: 0, y: 0, width: 80, height: 24 });
    assert_eq!(layout.title, Rect { x: 0, y: 0, width: 80, height: 1 });
    assert_eq!(layout.status, Rect { x: 0, y: 23, width: 80, height: 1 });
    assert_eq!(layout.main.y, 1);
    assert_eq!(layout.main.height, 22);
}

#[test]
fn inner_rect_shrinks_by_the_margin() {
    let area = Rect { x: 3, y: 4, width: 10, height: 6 };
    assert_eq!(inner_rect(area, 1, 1), Rect { x: 4, y: 5, width: 8, height: 4 });
    assert_eq!(inner_rect(area, 5, 3), Rect { x: 8, y: 7, width: 0, height: 0 });
    assert_eq!(inner_rect(area, 6, 1), Rect { x: 0, y: 0, width: 0, height: 0 });
    let edge = Rect { x: u16::MAX, y: 0, width: 4, height: 4 };
    assert_eq!(inner_rect(edge, 1, 1), Rect { x: u16::MAX, y: 1, width: 2, height: 2 });
    assert_eq!(inner_rect(area, u16::MAX, 0), Rect { x: 0, y: 0, width: 0, height: 0 });
}

#[test]
fn inner_rect_agrees_with_ratatui() {
    for (x, y, w, h, mh, mv) in [(0u16, 0u16, 10u16, 10u16, 1u16, 1u16), (5, 7, 3, 9, 2, 4), (65530, 65530, 20, 20, 3, 3)] {
        let ours = inner_rect(Rect { x, y, width: w, height: h }, mh, mv);
        let theirs = ratatui::layout::Rect { x, y, width: w, height: h }.inner(Margin::new(mh, mv));
        assert_eq!((ours.x, ours.y, ours.width, ours.height), (theirs.x, theirs.y, theirs.width, theirs.height));
    }
}

#[test]
fn frame_layout_waveform_inside_panel_border() {
    let layout = frame_layout(Rect { x: 0, y: 0, width: 90, height: 30 });
    assert_eq!(layout.title.height, 1);
    assert_eq!(layout.status.height, 1);
    assert_eq!(layout.waveform.x, layout.song_panel.x + 1);
    assert_eq!(layout.waveform.y, layout.song_panel.y + 1);
    assert_eq!(layout.waveform.width, layout.song_panel.width - 2);
    assert_eq!(layout.song_info.height, 3);
    assert_eq!(layout.song_info.y + 3, layout.song_panel.y + layout.song_panel.height - 1);
}

#[test]
fn sparkline_height_scale() {
    assert_eq!(max_sparkline_height(0), 0);
    assert_eq!(max_sparkline_height(5), 40);
    assert_eq!(max_sparkline_height(u16::MAX), 8 * 65535);
}

#[test]
fn random_waveform_shape() {
    let mut rng = StdRng::seed_from_u64(7);
    let data = random_waveform(&mut rng, 200, 1_000_000);
    assert_eq!(data.len(), 200);
    assert!(data.iter().all(|&v| v <= 1_000_000));
    assert!(data.iter().any(|&v| v != 1_000_000));
    let zeros = random_waveform(&mut rng, 30, 0);
    assert_eq!(zeros, vec![0; 30]);
    assert!(random_waveform(&mut rng, 0, 5).is_empty());
}

#[test]
fn song_records_hold_their_fields() {
    let local = Song {
        name: "Chase".to_string(),
        author: "Someone".to_string(),
        album: Some("Game OST".to_string()),
        youtube_link: None,
        length: "3:00".to_string(),
        song_type: SongType::LOCAL(LocalSong { file_path: PathBuf::from("/music/chase.ogg") }),
    };
    match &local.song_type {
        SongType::LOCAL(song) => assert_eq!(song.file_path, PathBuf::from("/music/chase.ogg")),
        SongType::ONLINE(_) => panic!("expected a local song"),
    }
    let online = SongType::ONLINE(OnlineSong { link: "https://example.com/x".to_string() });
    match online {
        SongType::ONLINE(song) => assert_eq!(song.link, "https://example.com/x"),
        SongType::LOCAL(_) => panic!("expected an online song"),
    }
    assert_eq!(local.album.as_deref(), Some("Game OST"));
}

#[test]
fn collector_steps_through_a_packet_stream() {
    let mut collector: SampleCollector<u8> = SampleCollector::new(1);
    assert_eq!(collector.on_packet(PacketRead::Packet(1)), PacketAction::Decode);
    assert_eq!(collector.on_packet(PacketRead::Packet(0)), PacketAction::Skip);
    assert_eq!(collector.on_packet(PacketRead::End), PacketAction::Finish);
    assert!(collector.on_decoded(Ok(&[9, 8])).is_ok());
    match collector.on_decoded(Err("corrupt frame".to_string())) {
        Err(AudioError::PacketDecode(detail)) => assert_eq!(detail, "corrupt frame"),
        _ => panic!("expected a decode error"),
    }
    assert!(collector.on_decoded(Ok(&[7])).is_ok());
    let (samples, rate) = collector.finish(None);
    assert_eq!(samples, vec![9, 8, 7]);
    assert_eq!(rate, DEFAULT_SAMPLE_RATE);
}

#[test]
fn app_state_default_is_running() {
    let state = AppState::default();
    assert!(!state.exit);
}

#[test]
fn write_loop_plays_one_endless_loop() {
    let pcm: Vec<u8> = (0..100).collect();
    let start = 250usize;
    let mut cursor = start;
    for k in 0..5usize {
        let (buffer, next) = next_write_buffer(&pcm, cursor);
        assert_eq!(buffer, looped(&pcm, start % 100 + 2048 * k, 2048));
        assert_eq!(next, (start % 100 + 2048 * (k + 1)) % 100);
        cursor = next;
    }
}

#[test]
fn connected_block_title_with_carriage_return() {
    let area = Rect { x: 0, y: 0, width: 12, height: 4 };
    let lines = connected_block_widget("ab\r\ncd", area, 1);
    assert_eq!(lines[0], "┌abcd──────┐");
}

#[test]
fn layout_constraint_lists() {
    assert_eq!(
        screen_rows(),
        vec![LayoutConstraint::Length(1), LayoutConstraint::Min(3), LayoutConstraint::Length(1)]
    );
    assert_eq!(main_columns(), vec![LayoutConstraint::Min(3), LayoutConstraint::Ratio(2, 3)]);
    assert_eq!(
        panel_rows(),
        vec![LayoutConstraint::Min(2), LayoutConstraint::Length(1), LayoutConstraint::Length(3)]
    );
}

#[test]
fn assemble_layout_names_the_parts() {
    let r = |n: u16| Rect { x: n, y: n, width: n, height: n };
    let layout = assemble_layout(&vec![r(1), r(2), r(3)], &vec![r(4), r(5)], &vec![r(6), r(7), r(8)]);
    assert_eq!(layout.title, r(1));
    assert_eq!(layout.main, r(2));
    assert_eq!(layout.status, r(3));
    assert_eq!(layout.songs_list, r(4));
    assert_eq!(layout.song_panel, r(5));
    assert_eq!(layout.waveform, r(6));
    assert_eq!(layout.song_info, r(8));
}

#[test]
fn connected_block_title_keeps_a_lone_carriage_return() {
    let area = Rect { x: 0, y: 0, width: 10, height: 4 };
    let lines = connected_block_widget("ab\r", area, 1);
    assert_eq!(lines[0], "┌ab\r─────┐");
}

fn wav_bytes(rate: u32, samples: &[i16]) -> Vec<u8> {
    let data_len = (samples.len() * 2) as u32;
    let mut out = Vec::new();
    out.extend_from_slice(b"RIFF");
    out.extend_from_slice(&(36 + data_len).to_le_bytes());
    out.extend_from_slice(b"WAVEfmt ");
    out.extend_from_slice(&16u32.to_le_bytes());
    out.extend_from_slice(&1u16.to_le_bytes());
    out.extend_from_slice(&1u16.to_le_bytes());
    out.extend_from_slice(&rate.to_le_bytes());
    out.extend_from_slice(&(rate * 2).to_le_bytes());
    out.extend_from_slice(&2u16.to_le_bytes());
    out.extend_from_slice(&16u16.to_le_bytes());
    out.extend_from_slice(b"data");
    out.extend_from_slice(&data_len.to_le_bytes());
    for s in samples {
        out.extend_from_slice(&s.to_le_bytes());
    }
    out
}

#[test]
fn open_track_of_a_wav_file() {
    let bytes = wav_bytes(8000, &[0, 16384, -16384, 100]);
    let (mut media, track_id, rate) = match open_track(&bytes) {
        Ok(opened) => opened,
        Err(err) => panic!("unexpected error: {}", err.message()),
    };
    assert_eq!(rate, Some(8000));
    assert!(media.decoder.is_some());
    let collector: SampleCollector<u8> = SampleCollector::new(track_id);
    assert_eq!(next_packet_action(&mut media, &collector), PacketAction::Decode);
    assert!(media.packet.is_some());
    let mut finished = false;
    for _ in 0..10 {
        if next_packet_action(&mut media, &collector) == PacketAction::Finish {
            finished = true;
            break;
        }
    }
    assert!(finished);
    let other: SampleCollector<u8> = SampleCollector::new(track_id + 1);
    let (mut media, _, _) = match open_track(&bytes) {
        Ok(opened) => opened,
        Err(err) => panic!("unexpected error: {}", err.message()),
    };
    assert_eq!(next_packet_action(&mut media, &other), PacketAction::Skip);
}

#[test]
fn open_track_of_bytes_in_no_format() {
    for bytes in [Vec::new(), vec![1u8, 2, 3, 4, 5, 6, 7, 8], b"hello, this is no audio".to_vec()] {
        match open_track(&bytes) {
            Err(AudioError::UnsupportedFormat(detail)) => assert!(!detail.is_empty()),
            Err(other) => panic!("unexpected error: {}", other.message()),
            Ok(_) => panic!("opened bytes in no format"),
        }
    }
}
