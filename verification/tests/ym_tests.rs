use ym2149::replayer::tracker::{deinterleave_tracker_bytes, TrackerFormat, TrackerLine};
use ym2149::replayer::ym_player::{
    calculate_samples_per_frame, check_samples_per_frame, check_sync_buzzer_frequency, detect_format,
    extract_ym3b_loop_point, frame_loop_setting, normalize_loop_point, parse_ym_tracker, read_be_u16,
    read_be_u32, read_c_string, tracker_loop_setting, ym2_frames, LoadSummary, YmFileFormat, YmLoadError,
};
use ym2149::replayer::PlaybackState;

#[test]
fn be_readers() {
    let data = [0x12u8, 0x34, 0x56, 0x78, 0x9a];
    let mut off = 0usize;
    assert_eq!(read_be_u16(&data, &mut off), Ok(0x1234));
    assert_eq!(off, 2);
    assert_eq!(read_be_u16(&data, &mut off), Ok(0x5678));
    assert_eq!(read_be_u16(&data, &mut off), Err(YmLoadError::UnexpectedEndU16));
    assert_eq!(off, 4);
    let mut off2 = 1usize;
    assert_eq!(read_be_u32(&data, &mut off2), Ok(0x3456789a));
    assert_eq!(off2, 5);
    assert_eq!(read_be_u32(&data, &mut off2), Err(YmLoadError::UnexpectedEndU32));
}

#[test]
fn c_strings() {
    let data = b"abc\0\0xyz";
    let mut off = 0usize;
    assert_eq!(read_c_string(data, &mut off).unwrap(), "abc");
    assert_eq!(off, 4);
    assert_eq!(read_c_string(data, &mut off).unwrap(), "");
    assert_eq!(off, 5);
    assert_eq!(read_c_string(data, &mut off), Err(YmLoadError::UnterminatedString));
    assert_eq!(off, data.len());
    assert_eq!(read_c_string(data, &mut off), Err(YmLoadError::UnexpectedEndString));
}

#[test]
fn c_string_invalid_utf8_is_replaced() {
    let data = [0x41u8, 0xff, 0x42, 0];
    let mut off = 0usize;
    assert_eq!(read_c_string(&data, &mut off).unwrap(), "A\u{fffd}B");
}

fn tracker_file(format: &[u8; 4], voices: u16, frames: u32, attrs: u32, drums: &[(&[u8], u16)], pattern: &[u8]) -> Vec<u8> {
    let mut d = Vec::new();
    d.extend_from_slice(format);
    d.extend_from_slice(b"LeOnArD!");
    d.extend_from_slice(&voices.to_be_bytes());
    d.extend_from_slice(&50u16.to_be_bytes());
    d.extend_from_slice(&frames.to_be_bytes());
    d.extend_from_slice(&1u32.to_be_bytes());
    d.extend_from_slice(&(drums.len() as u16).to_be_bytes());
    d.extend_from_slice(&attrs.to_be_bytes());
    d.extend_from_slice(b"Song\0Me\0Hi\0");
    for (bytes, rep) in drums {
        d.extend_from_slice(&(bytes.len() as u16).to_be_bytes());
        if format == b"YMT2" {
            d.extend_from_slice(&rep.to_be_bytes());
            d.extend_from_slice(&0u16.to_be_bytes());
        }
        d.extend_from_slice(bytes);
    }
    d.extend_from_slice(pattern);
    d
}

#[test]
fn tracker_ymt1_parses() {
    let pattern: Vec<u8> = (0u8..16).collect();
    let data = tracker_file(b"YMT1", 2, 2, 16, &[(&[1, 2, 3], 0)], &pattern);
    let song = parse_ym_tracker(&data, TrackerFormat::Ymt1).unwrap();
    assert_eq!(song.nb_voice, 2);
    assert_eq!(song.total_frames, 2);
    assert_eq!(song.player_rate, 50);
    assert_eq!(song.samples_per_frame, 882);
    assert!(song.loop_enabled);
    assert_eq!(song.loop_frame, 1);
    assert_eq!(song.freq_shift, 0);
    assert_eq!(song.samples.len(), 1);
    assert_eq!(song.samples[0].data, vec![1, 2, 3]);
    assert_eq!(song.samples[0].repeat_len, 3);
    assert_eq!(song.lines.len(), 4);
    assert_eq!(song.lines[1], TrackerLine { note_on: 4, volume: 5, freq_high: 6, freq_low: 7 });
    assert_eq!(song.info.song_name, "Song");
    assert_eq!(song.info.author, "Me");
    assert_eq!(song.info.comment, "Hi");
    assert_eq!(song.info.frame_count, 2);
    assert_eq!(song.info.master_clock, 2_000_000);
}

#[test]
fn tracker_ymt2_interleaved_and_shift() {
    // One voice, two frames, interleaved: columns stored frame after frame.
    let pattern = [10u8, 20, 11, 21, 12, 22, 13, 23];
    let attrs = 0x3000_0001u32;
    let data = tracker_file(b"YMT2", 1, 2, attrs, &[(&[9, 9], 5)], &pattern);
    let song = parse_ym_tracker(&data, TrackerFormat::Ymt2).unwrap();
    assert_eq!(song.freq_shift, 3);
    assert_eq!(song.attributes, 0);
    assert!(!song.loop_enabled);
    assert_eq!(song.samples[0].repeat_len, 2);
    assert_eq!(song.lines[0], TrackerLine { note_on: 10, volume: 11, freq_high: 12, freq_low: 13 });
    assert_eq!(song.lines[1], TrackerLine { note_on: 20, volume: 21, freq_high: 22, freq_low: 23 });
}

#[test]
fn tracker_errors() {
    assert_eq!(parse_ym_tracker(b"YMT1", TrackerFormat::Ymt1).err(), Some(YmLoadError::TrackerTooSmall));
    assert_eq!(parse_ym_tracker(b"YMT1LeOnArd!", TrackerFormat::Ymt1).err(), Some(YmLoadError::InvalidTrackerSignature));
    let nine = tracker_file(b"YMT1", 9, 1, 0, &[], &[0; 36]);
    assert_eq!(parse_ym_tracker(&nine, TrackerFormat::Ymt1).err(), Some(YmLoadError::UnsupportedVoiceCount(9)));
    let zero = tracker_file(b"YMT1", 1, 0, 0, &[], &[]);
    assert_eq!(parse_ym_tracker(&zero, TrackerFormat::Ymt1).err(), Some(YmLoadError::ZeroFrames));
    let short = tracker_file(b"YMT1", 1, 2, 0, &[], &[0; 7]);
    assert_eq!(parse_ym_tracker(&short, TrackerFormat::Ymt1).err(), Some(YmLoadError::PatternTruncated));
    let mut cut = tracker_file(b"YMT1", 1, 1, 0, &[(&[1, 2, 3, 4], 0)], &[]);
    cut.truncate(cut.len() - 2);
    assert_eq!(parse_ym_tracker(&cut, TrackerFormat::Ymt1).err(), Some(YmLoadError::DigidrumTruncated));
    let header_only = &tracker_file(b"YMT1", 1, 1, 0, &[], &[0; 4])[..20];
    assert_eq!(parse_ym_tracker(header_only, TrackerFormat::Ymt1).err(), Some(YmLoadError::UnexpectedEndU32));
}

#[test]
fn deinterleave_columns() {
    let data = [1u8, 2, 3, 4, 5, 6, 7, 8];
    assert_eq!(deinterleave_tracker_bytes(&data, 1, 2), vec![1, 3, 5, 7, 2, 4, 6, 8]);
}

#[test]
fn ym2_frames_deinterleave() {
    let mut data = b"YM2!".to_vec();
    for k in 0..14u8 {
        data.push(k);
        data.push(100 + k);
    }
    let frames = ym2_frames(&data).unwrap();
    assert_eq!(frames.len(), 2);
    assert_eq!(frames[0][3], 3);
    assert_eq!(frames[1][3], 103);
    assert_eq!(frames[1][14], 0);
    assert_eq!(ym2_frames(b"YM2").err(), Some(YmLoadError::Ym2TooSmall));
    assert_eq!(ym2_frames(b"YM2!").err(), Some(YmLoadError::Ym2PayloadSize(0)));
    assert_eq!(ym2_frames(b"YM2!abc").err(), Some(YmLoadError::Ym2PayloadSize(3)));
}

#[test]
fn formats_detected() {
    assert_eq!(detect_format(b"YM6!LeOnArD!"), Ok(YmFileFormat::Ym6));
    assert_eq!(detect_format(b"YM3b"), Ok(YmFileFormat::Ym3b));
    assert_eq!(detect_format(b"YMT2"), Ok(YmFileFormat::Ymt2));
    assert_eq!(detect_format(b"YM7!"), Err(YmLoadError::UnsupportedFormat));
    assert_eq!(detect_format(b"YM"), Err(YmLoadError::DataTooShort));
    assert_eq!(YmFileFormat::Ym3b.name(), "YM3b");
    assert_eq!(YmFileFormat::Ymt1.name(), "YMT1");
}

#[test]
fn loop_points() {
    assert_eq!(normalize_loop_point(0, 10, false), None);
    assert_eq!(normalize_loop_point(0, 10, true), Some(0));
    assert_eq!(normalize_loop_point(5, 10, false), Some(5));
    assert_eq!(normalize_loop_point(10, 10, true), None);
    assert_eq!(normalize_loop_point(3, 0, true), None);
    let mut data = b"YM3b".to_vec();
    data.extend_from_slice(&[0u8; 28]);
    data.extend_from_slice(&1u32.to_be_bytes());
    assert_eq!(extract_ym3b_loop_point(&data, 2, true), Some(1));
    assert_eq!(extract_ym3b_loop_point(&data, 1, true), None);
    data.insert(5, 0);
    assert_eq!(extract_ym3b_loop_point(&data, 2, true), None);
}

#[test]
fn frame_timing() {
    assert_eq!(calculate_samples_per_frame(50), 882);
    assert_eq!(calculate_samples_per_frame(60), 735);
    assert_eq!(calculate_samples_per_frame(59), 747);
    assert_eq!(calculate_samples_per_frame(0), 882);
    assert_eq!(check_samples_per_frame(0), Err(YmLoadError::SamplesPerFrameZero));
    assert_eq!(check_samples_per_frame(10001), Err(YmLoadError::SamplesPerFrameTooLarge(10001)));
    assert_eq!(check_samples_per_frame(735), Ok(735));
    assert_eq!(check_sync_buzzer_frequency(0), Err(YmLoadError::SyncBuzzerZeroFrequency));
    assert_eq!(check_sync_buzzer_frequency(6000), Ok(6000));
}

#[test]
fn loop_settings() {
    assert_eq!(frame_loop_setting(3, 10), (Some(3), 3));
    assert_eq!(frame_loop_setting(10, 10), (None, 0));
    assert_eq!(tracker_loop_setting(2, 5), (true, 2, 2));
    assert_eq!(tracker_loop_setting(5, 5), (false, 0, 0));
    assert_eq!(tracker_loop_setting(0, 0), (false, 0, 0));
}

#[test]
fn load_summary_total_samples() {
    let s = LoadSummary { format: YmFileFormat::Ym5, frame_count: 100, samples_per_frame: 882 };
    assert_eq!(s.total_samples(), 88_200);
    let big = LoadSummary { format: YmFileFormat::Ym6, frame_count: usize::MAX, samples_per_frame: 2 };
    assert_eq!(big.total_samples(), usize::MAX);
    assert_ne!(PlaybackState::Playing, PlaybackState::Paused);
}

use ym2149::replayer::ym_player::Ym6Player;
use ym2149::replayer::PlaybackController;

#[test]
fn test_ym6_player_creation() {
    let player = Ym6Player::new();
    assert_eq!(player.state(), PlaybackState::Stopped);
    assert_eq!(player.frame_count(), 0);
}

#[test]
fn test_ym6_player_initialization() {
    let player = Ym6Player::new();
    assert_eq!(player.frame_count(), 0, "New player should have 0 frames");
    assert_eq!(player.get_current_frame(), 0, "New player should start at frame 0");
    assert_eq!(player.state(), PlaybackState::Stopped, "New player should be stopped");
}

#[test]
fn test_ym6_player_frame_progression() {
    let mut player = Ym6Player::new();
    let test_frames = vec![[0x00u8; 16]; 10];
    player.load_frames(test_frames);
    player.play().unwrap();
    assert_eq!(player.state(), PlaybackState::Playing);
    let _ = player.generate_samples(4410);
    assert!(player.get_current_frame() <= 10, "Frame position should not exceed frame count");
}

#[test]
fn test_ym6_player_load_frames() {
    let mut player = Ym6Player::new();
    let frames = vec![[0u8; 16]; 10];
    player.load_frames(frames);
    assert_eq!(player.frame_count(), 10);
}

#[test]
fn test_ym6_player_playback() {
    let mut player = Ym6Player::new();
    let frames = vec![[0u8; 16]; 5];
    player.load_frames(frames);
    player.play().unwrap();
    let samples = player.generate_samples(100);
    assert_eq!(samples.len(), 100);
}

#[test]
fn test_ym6_player_looping() {
    let mut player = Ym6Player::new();
    let frames = vec![[0x42u8; 16]; 10];
    player.load_frames(frames);
    player.set_loop_frame(5);
    player.play().unwrap();
    let _ = player.generate_samples(10000);
    assert!(player.get_current_frame() >= 5 && player.get_current_frame() < 10);
    assert_eq!(player.state(), PlaybackState::Playing);
}

#[test]
fn test_sync_buzzer_zero_frequency_error() {
    let mut player = Ym6Player::new();
    let frames = vec![[0u8; 16]; 10];
    player.load_frames(frames);
    let result = player.enable_sync_buzzer(0);
    assert!(result.is_err());
    let err = result.unwrap_err();
    assert_eq!(err, YmLoadError::SyncBuzzerZeroFrequency);
    assert!(err.message().contains("frequency must be > 0"));
    assert!(player.enable_sync_buzzer(6000).is_ok());
}

#[test]
fn loader_error_messages_carry_their_values() {
    assert_eq!(
        YmLoadError::UnsupportedVoiceCount(12).message(),
        "Unsupported tracker voice count: 12"
    );
    assert_eq!(YmLoadError::Ym2PayloadSize(0).message(), "YM2 payload size 0 is not a multiple of 14");
    assert_eq!(
        YmLoadError::SamplesPerFrameTooLarge(20000).message(),
        "samples_per_frame 20000 exceeds reasonable limit of 10000 (implies < 4.41Hz frame rate)"
    );
    assert_eq!(YmLoadError::TrackerTooSmall.message(), "Tracker file too small");
}

#[test]
fn batch_samples_equal_single_samples() {
    let mut frame = [0u8; 16];
    frame[0] = 0x20;
    frame[7] = 0x3E;
    frame[8] = 0x0F;
    let mut a = Ym6Player::new();
    a.load_frames(vec![frame; 4]);
    a.play().unwrap();
    let mut b = Ym6Player::new();
    b.load_frames(vec![frame; 4]);
    b.play().unwrap();
    let batch = a.generate_samples(2000);
    let single: Vec<i16> = (0..2000).map(|_| b.generate_sample()).collect();
    assert_eq!(batch, single);
    assert!(batch.iter().any(|&s| s != 0));
}

#[test]
fn player_without_loop_stops_at_end() {
    let mut player = Ym6Player::new();
    player.load_frames(vec![[0u8; 16]; 2]);
    player.play().unwrap();
    let _ = player.generate_samples(2 * 882 - 1);
    assert_eq!(player.state(), PlaybackState::Playing);
    assert_eq!(player.get_current_frame(), 1);
    let _ = player.generate_samples(1);
    assert_eq!(player.state(), PlaybackState::Stopped);
    assert_eq!(player.generate_sample(), 0);
}

#[test]
fn player_frame_advances_after_frame_length() {
    let mut player = Ym6Player::new();
    player.load_frames(vec![[0u8; 16]; 3]);
    assert!(player.set_samples_per_frame(735).is_ok());
    assert_eq!(player.samples_per_frame_value(), 735);
    player.play().unwrap();
    let _ = player.generate_samples(735);
    assert_eq!(player.get_current_frame(), 1);
    assert_eq!(player.set_samples_per_frame(0), Err(YmLoadError::SamplesPerFrameZero));
    assert_eq!(player.set_samples_per_frame(20000), Err(YmLoadError::SamplesPerFrameTooLarge(20000)));
}

#[test]
fn player_writes_frame_registers() {
    let mut player = Ym6Player::new();
    let mut frame = [0u8; 16];
    frame[0] = 0x34;
    frame[1] = 0x12;
    frame[7] = 0x38;
    frame[13] = 0xff;
    player.load_frames(vec![frame; 2]);
    player.play().unwrap();
    player.generate_sample();
    assert_eq!(player.get_chip().read_register(0), 0x34);
    assert_eq!(player.get_chip().read_register(1), 0x02);
    assert_eq!(player.get_chip().read_register(7), 0x38);
    assert_eq!(player.get_chip().read_register(13), 0);
    player.pause().unwrap();
    assert_eq!(player.state(), PlaybackState::Paused);
    player.stop().unwrap();
    assert_eq!(player.get_current_frame(), 0);
    assert_eq!(player.loop_point_value(), None);
    assert_eq!(player.frames_clone().unwrap().len(), 2);
    assert!(!player.is_tracker_mode());
}

use ym2149::replayer::vbl_sync::VblSync;

#[test]
fn test_vbl_sync_creation() {
    let vbl = VblSync::default();
    assert_eq!(vbl.get_vbl_count(), 0);
}

#[test]
fn test_vbl_interrupt() {
    // 44.1 kHz audio and a 50 Hz VBL, as the timing configuration computes it.
    let samples_per_vbl = (44100 as f32 / 50.0) as u32;
    let mut vbl = VblSync::new(samples_per_vbl);
    let mut vbl_triggered = false;
    for _ in 0..samples_per_vbl {
        if vbl.clock() {
            vbl_triggered = true;
            break;
        }
    }
    assert!(vbl_triggered);
    assert_eq!(vbl.get_vbl_count(), 1);
}

#[test]
fn vbl_fires_every_period() {
    let mut vbl = VblSync::new(3);
    let fired: Vec<bool> = (0..9).map(|_| vbl.clock()).collect();
    assert_eq!(fired, vec![false, false, true, false, false, true, false, false, true]);
    assert_eq!(vbl.get_sample_count(), 9);
    assert_eq!(vbl.get_playback_frame(), 6);
    vbl.reset();
    assert_eq!(vbl.get_samples_until_vbl(), 3);
    vbl.set_samples_per_vbl(5);
    assert_eq!(vbl.samples_per_vbl(), 5);
}

fn ym2_file(frames: &[[u8; 14]]) -> Vec<u8> {
    let n = frames.len();
    let mut data = b"YM2!".to_vec();
    let mut payload = vec![0u8; 14 * n];
    for (j, f) in frames.iter().enumerate() {
        for k in 0..14 {
            payload[j + n * k] = f[k];
        }
    }
    data.extend_from_slice(&payload);
    data
}

#[test]
fn ym2_player_applies_mad_max_rules() {
    let mut first = [0u8; 14];
    first[7] = 0x38;
    first[10] = 0x85;
    first[11] = 0x34;
    first[12] = 0x56;
    first[13] = 0x02;
    let mut second = [0u8; 14];
    second[7] = 0x38;
    second[11] = 0x77;
    second[13] = 0xFF;
    let data = ym2_file(&[first, second]);

    let mut player = Ym6Player::new();
    player.load_ym2(&data).unwrap();
    assert_eq!(player.frame_count(), 2);
    assert_eq!(player.samples_per_frame_value(), 882);
    let info = player.info().unwrap();
    assert_eq!(info.comment, "YM2 (Mad Max) format");
    assert_eq!(info.frame_count, 2);
    assert_eq!(info.frame_rate, 50);

    player.play().unwrap();
    let _ = player.generate_sample();
    let chip = player.get_chip();
    assert_eq!(chip.read_register(10), 0x05);
    assert_eq!(chip.read_register(11), 0x34);
    assert_eq!(chip.read_register(12), 0);
    assert_eq!(chip.read_register(13), 0x0A);
    assert_eq!(chip.read_register(7), 0x38 | 0x24);

    let _ = player.generate_samples(882);
    let chip = player.get_chip();
    // 0xFF in register 13 leaves the envelope registers alone; no drum bit
    // leaves the mixer as the frame wrote it.
    assert_eq!(chip.read_register(11), 0x34);
    assert_eq!(chip.read_register(13), 0x0A);
    assert_eq!(chip.read_register(7), 0x38);

    let _ = player.generate_samples(882);
    assert_eq!(player.state(), PlaybackState::Stopped);
}

#[test]
fn ym2_player_rejects_bad_sizes_and_keeps_state() {
    let mut player = Ym6Player::new();
    player.load_frames(vec![[1u8; 16]; 3]);
    assert_eq!(player.load_ym2(b"YM2"), Err(YmLoadError::Ym2TooSmall));
    assert_eq!(player.load_ym2(b"YM2!abc"), Err(YmLoadError::Ym2PayloadSize(3)));
    assert_eq!(player.frame_count(), 3);
}

#[test]
fn test_sync_buzzer_enable() {
    let mut player = Ym6Player::new();
    player.load_frames(vec![[0u8; 16]; 10]);
    assert!(player.enable_sync_buzzer(6000).is_ok());
    assert!(player.sync_buzzer_is_enabled());
    assert_eq!(player.sync_buzzer_frequency(), Some(6000));
}

#[test]
fn test_sync_buzzer_disable() {
    let mut player = Ym6Player::new();
    player.load_frames(vec![[0u8; 16]; 10]);
    assert!(player.enable_sync_buzzer(6000).is_ok());
    player.disable_sync_buzzer();
    assert!(!player.sync_buzzer_is_enabled());
    // A refused frequency leaves the buzzer as it was.
    assert!(player.enable_sync_buzzer(0).is_err());
    assert!(!player.sync_buzzer_is_enabled());
}

#[test]
fn test_sync_buzzer_with_playback() {
    let mut player = Ym6Player::new();
    let mut frame = [0u8; 16];
    frame[13] = 0x0F;
    frame[8] = 0x0F;
    frame[7] = 0xBE;
    player.load_frames(vec![frame; 100]);
    assert!(player.enable_sync_buzzer(6000).is_ok());
    player.play().unwrap();
    let samples = player.generate_samples(1000);
    assert_eq!(samples.len(), 1000);
    assert!(player.sync_buzzer_is_enabled());
}

#[test]
fn tracker_song_loads_into_player() {
    let mut data = b"YMT1LeOnArD!".to_vec();
    data.extend_from_slice(&[0, 1]); // one voice
    data.extend_from_slice(&[0, 50]); // 50 Hz
    data.extend_from_slice(&[0, 0, 0, 2]); // two frames
    data.extend_from_slice(&[0, 0, 0, 9]); // loop frame 9, past the end
    data.extend_from_slice(&[0, 0]); // no digidrums
    data.extend_from_slice(&[0, 0, 0, 0]); // attributes
    data.extend_from_slice(b"S\0A\0C\0");
    data.extend_from_slice(&[0u8; 8]);
    assert_eq!(data.len(), 44);

    let mut p = Ym6Player::new();
    p.enable_sync_buzzer(5000).unwrap();
    assert_eq!(p.load_ym_tracker(&data, TrackerFormat::Ymt1), Ok(()));
    assert!(p.is_tracker_mode());
    assert_eq!(p.frame_count(), 2);
    assert_eq!(p.samples_per_frame_value(), 882);
    assert!(p.frames_clone().is_none());
    assert_eq!(p.loop_point_value(), None);
    assert!(!p.sync_buzzer_is_enabled());
    let info = p.info().unwrap();
    assert_eq!(info.song_name, "S");
    assert_eq!(info.author, "A");
    assert_eq!(info.comment, "C");
    assert_eq!(info.frame_count, 2);
    assert_eq!(info.frame_rate, 50);
    assert_eq!(info.loop_frame, 9);
    assert_eq!(info.master_clock, 2_000_000);

    p.set_loop_frame(1);
    assert_eq!(p.loop_point_value(), Some(1));
    assert_eq!(p.info().unwrap().loop_frame, 1);
    p.play().unwrap();
    assert_eq!(p.state(), PlaybackState::Playing);

    // Loading register frames leaves tracker mode.
    p.load_frames(vec![[0u8; 16]; 3]);
    assert!(!p.is_tracker_mode());
    assert_eq!(p.frame_count(), 3);

    // A bad tracker file is refused and changes nothing.
    assert_eq!(p.load_ym_tracker(b"YMT1", TrackerFormat::Ymt1), Err(YmLoadError::TrackerTooSmall));
    assert_eq!(p.frame_count(), 3);
}
