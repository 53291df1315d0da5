use ym2149::generators::NoiseGenerator;
use ym2149::ym2149::Ym2149;
use ym2149::gist::player::{GistPlayer, DEFAULT_SAMPLE_RATE};
use ym2149::gist::driver::GistDriver;
use ym2149::gist::sound::{GistError, GistSound};

fn sound_bytes(duration: i16, freq: i16, volume: i16) -> Vec<u8> {
    let mut words = [0i16; 56];
    words[0] = duration;
    words[1] = freq;
    words[2] = -1;
    words[3] = volume;
    let mut bytes = Vec::new();
    for w in words.iter() {
        bytes.extend_from_slice(&w.to_be_bytes());
    }
    bytes
}

#[test]
fn gist_read_too_short() {
    let err = GistSound::read(&[0u8; 10]).unwrap_err();
    assert_eq!(err, GistError::TooShort(10));
}

#[test]
fn gist_read_fields() {
    let bytes = sound_bytes(50, 0x123, 15);
    let sound = GistSound::read(&bytes).unwrap();
    assert_eq!(sound.duration, 50);
    assert_eq!(sound.initial_freq, 0x123);
    assert_eq!(sound.initial_noise_freq, -1);
    assert_eq!(sound.initial_volume, 15);
}

#[test]
fn gist_driver_plays_and_stops() {
    let mut chip = Ym2149::new();
    let mut driver = GistDriver::new();
    assert!(!driver.is_playing());
    let sound = GistSound::read(&sound_bytes(3, 0x100, 15)).unwrap();
    let voice = driver.snd_on(&mut chip, &sound, None, None, -1, 1);
    assert_eq!(voice, Some(0));
    assert!(driver.is_playing());
    for _ in 0..10 {
        driver.tick(&mut chip);
    }
    driver.stop_all(&mut chip);
    assert_eq!(chip.read_register(7), 0x3f);
    assert_eq!(chip.read_register(8), 0);
}

#[test]
fn gist_zero_duration_sound_is_not_started() {
    let mut chip = Ym2149::new();
    let mut driver = GistDriver::new();
    let sound = GistSound::read(&sound_bytes(0, 0x100, 15)).unwrap();
    // A sound of no duration starts nothing and reports no voice.
    assert_eq!(driver.snd_on(&mut chip, &sound, None, None, -1, 1), None);
    assert_eq!(driver.snd_on(&mut chip, &sound, Some(2), None, -1, 1), None);
    assert_eq!(driver.snd_on(&mut chip, &sound, Some(7), None, -1, 1), None);
    assert!(!driver.is_playing());
}

#[test]
fn gist_snd_off_releases_voice() {
    let mut chip = Ym2149::new();
    let mut driver = GistDriver::new();
    let sound = GistSound::read(&sound_bytes(100, 0x80, 12)).unwrap();
    let v = driver.snd_on(&mut chip, &sound, Some(1), None, -1, 5).unwrap();
    assert_eq!(v, 1);
    driver.snd_off(1);
    assert!(driver.is_playing());
    // The released voice has priority zero: a priority-0 sound may take it.
    let other = GistSound::read(&sound_bytes(10, 0x40, 9)).unwrap();
    assert_eq!(driver.snd_on(&mut chip, &other, Some(1), None, -1, 0), Some(1));
    // Releasing a free voice or a voice number out of range changes nothing.
    driver.snd_off(0);
    driver.snd_off(7);
    assert!(driver.is_playing());
}

#[test]
fn noise_reset_returns_to_initial_state() {
    let mut n = NoiseGenerator::new();
    n.set_period(31);
    n.tick();
    n.reset();
    assert_eq!(n.tick(), 0xFFFF_FFFF);
    let mut fresh = NoiseGenerator::new();
    assert_eq!(fresh.tick(), 0xFFFF_FFFF);
}

#[test]
fn test_player_creation() {
    let player = GistPlayer::new();
    assert_eq!(player.sample_rate(), DEFAULT_SAMPLE_RATE);
    assert!(!player.is_playing());
}

#[test]
fn test_custom_sample_rate() {
    let player = GistPlayer::with_sample_rate(48000);
    assert_eq!(player.sample_rate(), 48000);
}

#[test]
fn test_generate_samples() {
    let mut player = GistPlayer::new();
    let samples: Vec<f32> = player.generate_samples(100).iter().map(|&s| s as f32 / 32767.0).collect();
    assert_eq!(samples.len(), 100);
    assert!(samples.iter().all(|&s| s.is_finite()));
}

#[test]
fn gist_player_test_reset() {
    let mut player = GistPlayer::new();
    player.generate_samples(1000);
    player.reset();
    assert!(!player.is_playing());
}

#[test]
fn gist_player_sound_finishes() {
    let mut player = GistPlayer::new();
    let sound = GistSound::read(&sound_bytes(4, 0x100, 15)).unwrap();
    assert_eq!(player.play_sound(&sound, None, None), Some(0));
    assert!(player.is_playing());
    // 4 ticks of duration, then the release; a second at 200 Hz is plenty.
    let out = player.generate_samples(44100);
    assert_eq!(out.len(), 44100);
    assert!(!player.is_playing());
}

#[test]
fn gist_sound_bytes_round_trip() {
    let mut bytes = Vec::new();
    for i in 0..56u16 {
        let w: u16 = i.wrapping_mul(0x1357) ^ 0xA5C3;
        bytes.extend_from_slice(&w.to_be_bytes());
    }
    // Words 7 and 8 (vol_decay) = 0x0000, 0x8000: the low word is not sign-extended.
    bytes[14] = 0;
    bytes[15] = 0;
    bytes[16] = 0x80;
    bytes[17] = 0;
    let sound = GistSound::read(&bytes).unwrap();
    assert_eq!(sound.vol_decay, 32768);
    let mut out = Vec::new();
    sound.write(&mut out);
    assert_eq!(out, bytes);
    let again = GistSound::read(&out).unwrap();
    let mut out2 = vec![1u8];
    again.write(&mut out2);
    assert_eq!(&out2[1..], &bytes[..]);
}

#[test]
fn gist_sound_ends_on_its_last_tick() {
    let mut chip = Ym2149::new();
    let mut driver = GistDriver::new();
    let sound = GistSound::read(&sound_bytes(4, 0x100, 15)).unwrap();
    assert_eq!(sound.vol_phase, 0);
    assert_eq!(driver.snd_on(&mut chip, &sound, Some(2), None, -1, 3), Some(2));
    assert_eq!(chip.read_register(10), 15);
    for _ in 0..3 {
        driver.tick(&mut chip);
        assert!(driver.is_playing());
    }
    driver.tick(&mut chip);
    assert!(!driver.is_playing());
    assert_eq!(chip.read_register(10), 0);
    // The freed voice has priority zero again.
    let other = GistSound::read(&sound_bytes(2, 0x40, 9)).unwrap();
    assert_eq!(driver.snd_on(&mut chip, &other, Some(2), None, -1, 0), Some(2));
}

#[test]
fn gist_pitched_sound_lasts() {
    let mut chip = Ym2149::new();
    let mut driver = GistDriver::new();
    let sound = GistSound::read(&sound_bytes(2, 0x100, 15)).unwrap();
    assert_eq!(driver.snd_on(&mut chip, &sound, None, None, 60, 1), Some(0));
    for _ in 0..1000 {
        driver.tick(&mut chip);
    }
    assert!(driver.is_playing());
}

#[test]
fn gist_idle_tick_writes_nothing() {
    let mut chip = Ym2149::new();
    let mut driver = GistDriver::new();
    for r in 0u8..14 {
        chip.write_register(r, 0x0A);
    }
    let before: Vec<u8> = (0u8..14).map(|r| chip.read_register(r)).collect();
    driver.tick(&mut chip);
    let after: Vec<u8> = (0u8..14).map(|r| chip.read_register(r)).collect();
    assert_eq!(before, after);
}
