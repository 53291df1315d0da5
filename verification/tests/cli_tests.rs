use ym2149::cli::args::{ArgNotice, ChipChoice, CliArgs};
use ym2149::cli::keys::{EscapeState, KeyEvent};
use ym2149::cli::playlist::{Playlist, PlaylistEntry};
use ym2149::cli::ring_buffer::RingBuffer;
use ym2149::cli::streaming::SnapshotDelayBuffer;
use ym2149::cli::viz_helpers::create_channel_status;
use ym2149::cli::{StreamConfig, VisualSnapshot, DEFAULT_SAMPLE_RATE, MAX_PSG_COUNT};

#[test]
fn test_channel_status_all_enabled() {
    let status = create_channel_status(true, true, 15, true, "SAWDN", false, false, false);
    assert!(status.contains("T"));
    assert!(status.contains("N"));
    assert!(status.contains("E:15"));
    assert!(status.contains("SAWDN"));
}

#[test]
fn test_channel_status_tone_only() {
    let status = create_channel_status(true, false, 8, false, "", false, false, false);
    assert!(status.contains("T"));
    assert!(status.contains("-"));
    assert!(status.contains("A:8"));
}

#[test]
fn test_channel_status_noise_only() {
    let status = create_channel_status(false, true, 5, false, "", false, false, false);
    assert!(status.contains("-"));
    assert!(status.contains("N"));
    assert!(status.contains("A:5"));
}

#[test]
fn test_channel_status_disabled() {
    let status = create_channel_status(false, false, 0, false, "", false, false, false);
    assert!(status.contains("--"));
    assert!(status.contains("A:0"));
}

#[test]
fn test_channel_status_with_effects() {
    let status = create_channel_status(true, false, 8, false, "", true, true, true);
    assert!(status.contains("T"));
    assert!(status.contains("SID"));
    assert!(status.contains("DRUM"));
    assert!(status.contains("SYNC"));
}

#[test]
fn channel_status_exact_lines() {
    assert_eq!(create_channel_status(true, true, 15, true, "SAWDN", false, false, false), "TN E:15 SAWDN");
    assert_eq!(create_channel_status(false, false, 0, false, "", false, false, false), "-- A:0");
    assert_eq!(create_channel_status(true, false, 8, false, "", true, true, true), "T- A:8 [SID|DRUM|SYNC]");
    assert_eq!(create_channel_status(false, true, 200, false, "XX", false, true, false), "-N A:200 [DRUM]");
    assert_eq!(create_channel_status(false, true, 7, true, "", false, true, true), "-N E:7 [DRUM|SYNC]");
}

#[test]
fn escape_sequence_gives_arrow_keys() {
    let mut esc = EscapeState::new();
    assert_eq!(esc.process(0x1b), None);
    assert_eq!(esc.process(b'['), None);
    assert_eq!(esc.process(b'A'), Some(KeyEvent::ArrowUp));
    assert_eq!(esc.process(0x1b), None);
    assert_eq!(esc.process(b'['), None);
    assert_eq!(esc.process(b'D'), Some(KeyEvent::ArrowLeft));
    assert_eq!(esc.process(b'q'), Some(KeyEvent::Regular(b'q')));
}

#[test]
fn escape_sequence_unknown_is_dropped() {
    let mut esc = EscapeState::new();
    assert_eq!(esc.process(0x1b), None);
    assert_eq!(esc.process(b'O'), None);
    assert_eq!(esc.process(b'A'), None);
    assert_eq!(esc.process(b'1'), Some(KeyEvent::Regular(b'1')));
}

fn snapshot_with_count(n: usize) -> VisualSnapshot {
    let mut s = VisualSnapshot::new();
    s.psg_count = n;
    s
}

#[test]
fn delay_buffer_delays_by_target() {
    // 4096 samples in batches of 1024: a delay of 4 snapshots.
    let mut buf = SnapshotDelayBuffer::new(4096, 1024);
    for k in 1..=4 {
        buf.push(snapshot_with_count(k));
        assert_eq!(buf.get_delayed().psg_count, 0);
    }
    buf.push(snapshot_with_count(5));
    assert_eq!(buf.get_delayed().psg_count, 1);
    buf.push(snapshot_with_count(6));
    assert_eq!(buf.get_delayed().psg_count, 2);
    buf.clear();
    assert_eq!(buf.get_delayed().psg_count, 0);
}

#[test]
fn delay_buffer_minimum_delay_is_one() {
    let mut buf = SnapshotDelayBuffer::new(10, 1024);
    buf.push(snapshot_with_count(3));
    assert_eq!(buf.get_delayed().psg_count, 0);
    buf.push(snapshot_with_count(4));
    assert_eq!(buf.get_delayed().psg_count, 3);
}

#[test]
fn visual_snapshot_detects_effects() {
    let mut s = VisualSnapshot::new();
    s.psg_count = 1;
    s.registers[0][8] = 0x10;
    s.registers[0][11] = 100;
    s.registers[0][12] = 0;
    s.registers[0][13] = 0x0a;
    s.registers[0][9] = 0x0e;
    s.registers[0][10] = 0x05;
    s.detect_effects_from_registers();
    assert!(s.sid_active[0]);
    assert!(!s.drum_active[0]);
    assert!(s.drum_active[1]);
    assert!(!s.sid_active[1]);
    assert!(!s.sid_active[2] && !s.drum_active[2]);
    assert!(!s.sid_active[3]);
}

#[test]
fn visual_snapshot_keeps_existing_flags() {
    let mut s = VisualSnapshot::new();
    s.psg_count = 0;
    s.sid_active[5] = true;
    s.detect_effects_from_registers();
    assert!(s.sid_active[5]);
}

#[test]
fn stream_configs() {
    let low = StreamConfig::low_latency(48_000);
    assert_eq!(low.ring_buffer_size, 4096);
    assert_eq!(low.sample_rate, 48_000);
    let stable = StreamConfig::stable(22_050);
    assert_eq!(stable.ring_buffer_size, 16384);
    let d = StreamConfig::default();
    assert_eq!(d.sample_rate, DEFAULT_SAMPLE_RATE);
    assert_eq!(d.channels, 1);
    assert_eq!(MAX_PSG_COUNT, 4);
}

#[test]
fn chip_choice_parsing() {
    assert_eq!(ChipChoice::from_str("ym2149"), Some(ChipChoice::Ym2149));
    assert_eq!(ChipChoice::from_str("YM2149"), Some(ChipChoice::Ym2149));
    assert_eq!(ChipChoice::from_str("ay"), None);
    assert_eq!(ChipChoice::Ym2149.as_str(), "ym2149");
}

fn strings(v: &[&str]) -> Vec<String> {
    v.iter().map(|s| s.to_string()).collect()
}

#[test]
fn args_file_and_flags() {
    let (a, notices) = CliArgs::parse_args(&strings(&["--no-color-filter", "song.ym", "--chip", "YM2149"]));
    assert_eq!(a.file_path.as_deref(), Some("song.ym"));
    assert_eq!(a.color_filter_override, Some(false));
    assert_eq!(a.chip_choice, ChipChoice::Ym2149);
    assert!(!a.show_help);
    assert!(notices.is_empty());
}

#[test]
fn args_errors_ask_for_help() {
    let (a, notices) = CliArgs::parse_args(&strings(&["--chip=sid", "-x", "--chip"]));
    assert!(a.show_help);
    assert_eq!(notices.len(), 3);
    assert!(matches!(&notices[0], ArgNotice::UnknownChipInFlag(s) if s == "--chip=sid"));
    assert!(matches!(&notices[1], ArgNotice::UnknownFlag(s) if s == "-x"));
    assert!(matches!(&notices[2], ArgNotice::MissingChipValue));
    assert_eq!(a.file_path, None);
}

#[test]
fn args_help_and_unknown_chip() {
    let (a, notices) = CliArgs::parse_args(&strings(&["-h", "--chip", "opl", "a.ym", "b.ym"]));
    assert!(a.show_help);
    assert_eq!(a.file_path.as_deref(), Some("b.ym"));
    assert_eq!(notices.len(), 1);
    assert!(matches!(&notices[0], ArgNotice::UnknownChip(s) if s == "opl"));
    let (b, n2) = CliArgs::parse_args(&strings(&["--chip=Ym2149"]));
    assert!(!b.show_help);
    assert!(n2.is_empty());
}

#[test]
fn test_ring_buffer_creation() {
    let rb = RingBuffer::new(1024, 0.0f32).unwrap();
    assert_eq!(rb.capacity(), 1024);
    assert!(rb.is_empty());
    assert!(!rb.is_full());
}

#[test]
fn test_ring_buffer_power_of_two() {
    let rb = RingBuffer::new(1000, 0.0f32).unwrap();
    assert_eq!(rb.capacity(), 1024);
}

#[test]
fn test_write_and_read() {
    let mut rb = RingBuffer::new(16, 0.0f32).unwrap();
    let samples = vec![0.1, 0.2, 0.3, 0.4];

    let written = rb.write(&samples);
    assert_eq!(written, 4);
    assert_eq!(rb.available_read(), 4);

    let mut dest = vec![0.0; 4];
    let read = rb.read(&mut dest);
    assert_eq!(read, 4);
    assert_eq!(dest, samples);
}

#[test]
fn test_ring_buffer_wrap() {
    let mut rb = RingBuffer::new(16, 0.0f32).unwrap();

    let data1 = vec![1.0; 10];
    let data2 = vec![2.0; 8];

    let written1 = rb.write(&data1);
    assert_eq!(written1, 10);

    let mut buf = vec![0.0; 5];
    let read1 = rb.read(&mut buf);
    assert_eq!(read1, 5);
    assert_eq!(&buf[..], &data1[..5]);

    let written2 = rb.write(&data2);
    assert!(written2 > 0);

    let mut buf = vec![0.0; 15];
    let read2 = rb.read(&mut buf);
    assert!(read2 > 0);
}

#[test]
fn test_fill_percentage() {
    let mut rb = RingBuffer::new(128, 0.0f32).unwrap();
    let fill_of = |rb: &RingBuffer<f32>| rb.available_read() as f32 / rb.capacity() as f32;
    assert_eq!(fill_of(&rb), 0.0);

    rb.write(&vec![1.0; 64]);
    let fill = fill_of(&rb);
    assert!(fill > 0.45 && fill < 0.55, "Fill percentage {fill}");

    rb.write(&vec![1.0; 63]);
    let fill = fill_of(&rb);
    assert!(fill > 0.95, "Fill percentage {fill}");
}

#[test]
fn test_flush() {
    let mut rb = RingBuffer::new(16, 0.0f32).unwrap();
    rb.write(&[1.0; 8]);
    assert!(!rb.is_empty());

    rb.flush();
    assert!(rb.is_empty());
}

#[test]
fn test_zero_capacity_error() {
    let result = RingBuffer::new(0, 0.0f32);
    assert!(result.is_err());
    assert!(result.err().unwrap().0.contains("greater than 0"));
}

#[test]
fn test_max_capacity_exceeded() {
    let max_plus_one = (512 * 1024 * 1024 / std::mem::size_of::<f32>()) + 1;
    let result = RingBuffer::new(max_plus_one, 0.0f32);
    assert!(result.is_err());
    let message = result.err().unwrap().0;
    assert!(message.contains("exceeds maximum"));
    assert_eq!(
        message,
        "Ring buffer capacity 268435456 exceeds maximum safe size 134217728"
    );
}

#[test]
fn ring_buffer_keeps_one_slot_free_and_order() {
    let mut rb = RingBuffer::new(4, 0i16).unwrap();
    assert_eq!(rb.write(&[1, 2, 3, 4, 5]), 3);
    assert!(rb.is_full());
    let mut dest = [0i16; 2];
    assert_eq!(rb.read(&mut dest), 2);
    assert_eq!(dest, [1, 2]);
    assert_eq!(rb.write(&[6, 7]), 2);
    let mut dest = [9i16; 5];
    assert_eq!(rb.read(&mut dest), 3);
    assert_eq!(dest, [3, 6, 7, 9, 9]);
    assert!(rb.is_empty());
}

fn entry(stem: &str, title: &str, author: &str, secs: Option<u32>) -> PlaylistEntry {
    PlaylistEntry {
        path: format!("/music/{stem}.ym"),
        file_stem: Some(stem.to_string()),
        title: title.to_string(),
        author: author.to_string(),
        duration_secs: secs,
        format: "YM".to_string(),
    }
}

#[test]
fn playlist_display_string_forms() {
    assert_eq!(
        entry("song", "Title", "Author", Some(125)).display_string(),
        "Author - Title (02:05)"
    );
    assert_eq!(entry("song", "Title", "(unknown)", None).display_string(), "Title");
    assert_eq!(entry("song", "", "Author", Some(7)).display_string(), "song (00:07)");
    assert_eq!(entry("song", "(unknown)", "", Some(100000)).display_string(), "song (99:59)");
    let mut nameless = entry("x", "", "", None);
    nameless.file_stem = None;
    assert_eq!(nameless.display_string(), "???");
}

#[test]
fn playlist_navigation_wraps_and_pages() {
    let entries: Vec<PlaylistEntry> =
        (0..25).map(|i| entry(&format!("s{i:02}"), &format!("T{i:02}"), "A", None)).collect();
    let mut p = Playlist::from_entries(entries);
    assert_eq!(p.len(), 25);
    assert!(!p.is_empty());
    p.select_previous();
    assert_eq!(p.selected, 24);
    p.select_next();
    assert_eq!(p.selected, 0);
    p.page_down();
    assert_eq!(p.selected, 10);
    p.page_down();
    p.page_down();
    assert_eq!(p.selected, 24);
    p.page_up();
    assert_eq!(p.selected, 14);
    p.page_up();
    p.page_up();
    assert_eq!(p.selected, 0);
    assert_eq!(p.selected_path(), Some("/music/s00.ym"));
    let mut empty = Playlist::default();
    empty.select_next();
    empty.page_down();
    assert_eq!(empty.selected, 0);
    assert!(empty.selected_entry().is_none());
}

#[test]
fn playlist_type_ahead_search() {
    let entries = vec![
        entry("alpha", "Alpha Song", "Mad Max", None),
        entry("beta", "Beta Tune", "Scavenger", None),
        entry("gamma", "Gamma Ray", "mad max", None),
        entry("bravo", "Bravo", "(unknown)", None),
    ];
    let mut p = Playlist::from_entries(entries);
    p.search_append('b');
    assert_eq!(p.selected, 3);
    assert!(p.is_searching());
    p.search_append('e');
    assert_eq!(p.search_query(), "be");
    assert_eq!(p.selected, 1);
    p.search_backspace();
    p.search_backspace();
    assert!(!p.is_searching());
    assert_eq!(p.selected, 3);
    p.search_append('m');
    p.search_append('a');
    p.search_append('x');
    assert_eq!(p.selected, 0);
    p.search_next();
    assert_eq!(p.selected, 2);
    p.search_previous();
    assert_eq!(p.selected, 0);
    p.search_clear();
    assert_eq!(p.search_query(), "");
}

#[test]
fn playlist_scanned_entries_are_sorted_stably() {
    let mut twin = entry("twin2", "Same", "Author", None);
    twin.path = "/music/second.ym".to_string();
    let entries = vec![
        entry("z", "zebra", "(unknown)", None),
        entry("twin1", "Same", "Author", None),
        entry("a", "Apple", "(unknown)", None),
        twin,
        entry("b", "banana", "(unknown)", None),
    ];
    let p = Playlist::from_scanned(entries);
    let lines: Vec<String> = p.entries.iter().map(|e| e.display_string()).collect();
    assert_eq!(lines, vec!["Apple", "Author - Same", "Author - Same", "banana", "zebra"]);
    assert_eq!(p.entries[1].file_stem.as_deref(), Some("twin1"));
    assert_eq!(p.entries[2].path, "/music/second.ym");
    assert_eq!(p.selected, 0);
}

fn latency_ms(config: &StreamConfig) -> f32 {
    (config.ring_buffer_size as f32 / config.sample_rate as f32) * 1000.0
}

#[test]
fn test_stream_config_latency() {
    let config = StreamConfig::low_latency(44100);
    let latency = latency_ms(&config);
    assert!(latency > 90.0 && latency < 95.0);
}

#[test]
fn test_stream_config() {
    let config = StreamConfig::stable(44100);
    assert!(latency_ms(&config) > 300.0);
}

use ym2149::metadata::{artist_from_folder, detect_collection, order_catalog, CatalogEntry};

#[test]
fn collections_are_detected_from_paths() {
    assert_eq!(detect_collection("/music/SNDH/Mad_Max/song.sndh").unwrap().0, "sndh");
    assert_eq!(detect_collection("/data/ProjectAY/x.ay").unwrap().1, "Project AY");
    assert_eq!(detect_collection("/data/arkos/tune.aks").unwrap().3, "AKS");
    assert_eq!(detect_collection("/music/YM/a.ym").unwrap().0, "ym");
    assert_eq!(detect_collection("C:\\music\\ym\\a.ym").unwrap().0, "ym");
    assert_eq!(detect_collection("/music/ym").unwrap().2, "YM format chiptunes");
    assert!(detect_collection("/music/other/a.ym").is_none());
}

#[test]
fn artist_names_from_folders() {
    assert_eq!(artist_from_folder("Hippel.Jochen (Mad Max)"), "Mad Max");
    assert_eq!(artist_from_folder("Hippel.Jochen"), "Jochen Hippel");
    assert_eq!(artist_from_folder("A.B.C"), "A.B.C");
    assert_eq!(artist_from_folder("Trailing."), "Trailing.");
    assert_eq!(artist_from_folder("Plain"), "Plain");
    assert_eq!(artist_from_folder("Open (only"), "Open (only");
}

fn catalog_entry(path: &str, collection: &str, author: &str, title: &str) -> CatalogEntry {
    CatalogEntry {
        path: path.to_string(),
        title: title.to_string(),
        author: author.to_string(),
        format: "YM".to_string(),
        collection: collection.to_string(),
    }
}

#[test]
fn catalog_is_ordered_deduplicated_and_counted() {
    let entries = vec![
        catalog_entry("1", "ym", "Bob", "Zed"),
        catalog_entry("2", "sndh", "alice", "B"),
        catalog_entry("3", "ay", "X", "T"),
        catalog_entry("4", "sndh", "Alice", "a"),
        catalog_entry("5", "sndh", "ALICE", "b"),
        catalog_entry("6", "other", "A", "A"),
        catalog_entry("7", "ym", "bob", "zed"),
    ];
    let (tracks, counts) = order_catalog(entries);
    let paths: Vec<&str> = tracks.iter().map(|t| t.path.as_str()).collect();
    assert_eq!(paths, vec!["4", "2", "1", "3", "6"]);
    assert_eq!(counts, [2, 1, 1, 0]);
}

#[test]
fn catalog_orders_authors_before_titles() {
    let entries = vec![
        catalog_entry("a", "ym", "Zoe", "A"),
        catalog_entry("b", "ym", "adam", "Z"),
        catalog_entry("c", "arkos", "Adam", "Z"),
    ];
    let (tracks, counts) = order_catalog(entries);
    let paths: Vec<&str> = tracks.iter().map(|t| t.path.as_str()).collect();
    assert_eq!(paths, vec!["b", "a", "c"]);
    assert_eq!(counts, [0, 2, 0, 1]);
    let (empty, none) = order_catalog(Vec::new());
    assert!(empty.is_empty());
    assert_eq!(none, [0, 0, 0, 0]);
}

use ym2149::cli::tui::{KeyInput, LoadOrigin, PlayerFacts, TuiAction, TuiState};

fn facts(playing: bool) -> PlayerFacts {
    PlayerFacts { playing, channel_count: 3, has_subsongs: true, current_subsong: 3, subsong_count: 3 }
}

#[test]
fn tui_overlay_keys_drive_the_playlist() {
    let entries = vec![
        entry("a", "Alpha", "X", None),
        entry("b", "Beta", "Y", None),
        entry("c", "Gamma", "Z", None),
    ];
    let mut tui = TuiState::new(Some(Playlist::from_entries(entries)));
    assert!(tui.show_playlist);
    assert!(!tui.has_started_playback);
    // Nothing plays yet, so a stopped player loads nothing.
    assert_eq!(tui.on_frame(true), TuiAction::Nothing);

    assert_eq!(tui.on_key(KeyInput::Down, facts(false)), TuiAction::Nothing);
    assert_eq!(tui.playlist.as_ref().unwrap().selected, 1);
    assert_eq!(tui.on_key(KeyInput::Up, facts(false)), TuiAction::Nothing);
    assert_eq!(tui.on_key(KeyInput::Up, facts(false)), TuiAction::Nothing);
    assert_eq!(tui.playlist.as_ref().unwrap().selected, 2);

    // Typing searches; P is typed into the query while searching.
    tui.on_key(KeyInput::Char('g'), facts(false));
    tui.on_key(KeyInput::Char('p'), facts(false));
    assert_eq!(tui.playlist.as_ref().unwrap().search_query(), "gp");
    assert!(tui.show_playlist);
    tui.on_key(KeyInput::Esc, facts(false));
    assert_eq!(tui.playlist.as_ref().unwrap().search_query(), "");
    assert!(tui.show_playlist);

    let action = tui.on_key(KeyInput::Enter, facts(false));
    assert_eq!(action, TuiAction::Load("/music/c.ym".to_string(), LoadOrigin::Overlay));
    tui.on_loaded(LoadOrigin::Overlay);
    assert!(!tui.show_playlist);
    assert!(tui.has_started_playback);

    // The song ends: the selected one loads and the selection moves on.
    assert_eq!(tui.on_frame(false), TuiAction::Nothing);
    assert_eq!(tui.on_frame(true), TuiAction::Load("/music/c.ym".to_string(), LoadOrigin::Auto));
    tui.on_loaded(LoadOrigin::Auto);
    assert_eq!(tui.playlist.as_ref().unwrap().selected, 0);

    assert_eq!(
        tui.on_key(KeyInput::Char(']'), facts(true)),
        TuiAction::Load("/music/b.ym".to_string(), LoadOrigin::Skip)
    );
    assert_eq!(
        tui.on_key(KeyInput::Char('<'), facts(true)),
        TuiAction::Load("/music/a.ym".to_string(), LoadOrigin::Skip)
    );
    tui.on_key(KeyInput::Char('p'), facts(true));
    assert!(tui.show_playlist);
    tui.on_key(KeyInput::Esc, facts(true));
    assert!(!tui.show_playlist);
    assert_eq!(tui.on_key(KeyInput::Char('q'), facts(true)), TuiAction::Quit);
}

#[test]
fn tui_playback_keys() {
    let mut tui = TuiState::new(None);
    assert!(!tui.show_playlist);
    assert!(tui.has_started_playback);
    assert_eq!(tui.on_key(KeyInput::Char(' '), facts(true)), TuiAction::Pause);
    assert_eq!(tui.on_key(KeyInput::Char(' '), facts(false)), TuiAction::Play);
    assert_eq!(tui.on_key(KeyInput::Char('2'), facts(true)), TuiAction::ToggleMute(1));
    assert_eq!(tui.on_key(KeyInput::Char('4'), facts(true)), TuiAction::Nothing);
    assert_eq!(tui.on_key(KeyInput::Char('0'), facts(true)), TuiAction::Nothing);
    assert_eq!(tui.on_key(KeyInput::Char('+'), facts(true)), TuiAction::SetSubsong(1));
    assert_eq!(tui.on_key(KeyInput::Down, facts(true)), TuiAction::SetSubsong(2));
    assert_eq!(tui.on_key(KeyInput::Right, facts(true)), TuiAction::SetVolume(100));
    assert_eq!(tui.on_key(KeyInput::Left, facts(true)), TuiAction::SetVolume(95));
    assert_eq!(tui.volume_percent, 95);
    assert_eq!(tui.on_key(KeyInput::Char('p'), facts(true)), TuiAction::Nothing);
    assert!(!tui.show_playlist);
    assert_eq!(tui.on_key(KeyInput::Char(']'), facts(true)), TuiAction::Nothing);
    assert_eq!(tui.on_frame(true), TuiAction::Nothing);
}
