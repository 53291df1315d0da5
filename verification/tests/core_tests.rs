use ym2149::chip::Ym2149;
use ym2149::cycle_counter::CycleCounter;
use ym2149::dc_filter::{DcFilter, HISTORY_SIZE};
use ym2149::generators::{EnvelopeGenerator, NoiseGenerator, ToneGenerator};
use ym2149::mfp::{Mfp, Timer};
use ym2149::mixer::{Mixer, MixerConfig};
use ym2149::tables::{env_data, gate_mask, shape_to_env, VOLUME_TABLE};
use ym2149::util::channel_period;
use ym2149::ym2149::envelope::{envelope_shape_name, get_envelope_shape_name, EnvelopeShape};

#[test]
fn test_volume_table_monotonic_increasing() {
    for i in 1..16 {
        assert!(
            VOLUME_TABLE[i] > VOLUME_TABLE[i - 1],
            "Volume table not monotonic: VOLUME_TABLE[{}] ({}) <= VOLUME_TABLE[{}] ({})",
            i,
            VOLUME_TABLE[i],
            i - 1,
            VOLUME_TABLE[i - 1]
        );
    }
}

#[test]
fn test_dc_filter_removes_offset() {
    let mut filter = DcFilter::new();
    let dc_value = 1000u16;
    for _ in 0..HISTORY_SIZE * 2 {
        filter.process(dc_value);
    }
    let output = filter.process(dc_value);
    assert!(output.abs() < 10, "DC filter should remove constant offset, got {output}");
}

#[test]
fn test_dc_filter_preserves_ac() {
    let mut filter = DcFilter::new();
    for _ in 0..HISTORY_SIZE * 2 {
        filter.process(500);
    }
    let output = filter.process(1500);
    assert!(output > 100, "DC filter should pass AC component, got {output}");
}

#[test]
fn test_dc_filter_reset() {
    let mut filter = DcFilter::new();
    for i in 0..100 {
        filter.process(i as u16 * 100);
    }
    filter.reset();
    assert_eq!(filter.position(), 0);
    assert_eq!(filter.running_sum(), 0);
}

#[test]
fn dc_filter_constant_input_gives_exactly_zero() {
    let mut filter = DcFilter::new();
    for _ in 0..HISTORY_SIZE {
        filter.process(777);
    }
    assert_eq!(filter.process(777), 0);
}

#[test]
fn dc_filter_first_sample_exact_value() {
    let mut filter = DcFilter::new();
    // sum = 2048 after the first sample, so the average is 1.
    assert_eq!(filter.process(2048), 2047);
    assert_eq!(filter.position(), 1);
    assert_eq!(filter.running_sum(), 2048);
}

#[test]
fn test_tone_generator_period() {
    let mut tone = ToneGenerator::new();
    tone.set_period(100);
    assert_eq!(tone.period(), 100);
    assert!(!tone.is_half_amplitude());

    tone.set_period(1);
    assert!(tone.is_half_amplitude());
}

#[test]
fn tone_generator_toggles_edge_after_period() {
    let mut tone = ToneGenerator::new();
    tone.set_period(3);
    let start = tone.edge_bits();
    tone.tick(0);
    tone.tick(0);
    assert_eq!(tone.edge_bits(), start);
    tone.tick(0);
    assert_eq!(tone.edge_bits(), start ^ 0x1f);
}

#[test]
fn test_noise_generator_lfsr() {
    let mut noise = NoiseGenerator::new();
    let mut outputs = Vec::new();
    for _ in 0..100 {
        noise.tick();
        outputs.push(noise.output_mask());
    }
    let has_variation = outputs.windows(2).any(|w| w[0] != w[1]);
    assert!(has_variation, "Noise generator should produce varying output");
}

#[test]
fn noise_output_is_all_or_nothing() {
    let mut noise = NoiseGenerator::new();
    noise.set_period(2);
    for _ in 0..500 {
        noise.tick();
        let m = noise.output_mask();
        assert!(m == 0 || m == 0xffff_ffff);
    }
}

#[test]
fn generators_test_envelope_trigger() {
    let mut envelope = EnvelopeGenerator::new();
    envelope.set_period(10);
    envelope.set_shape(0);
    assert_eq!(envelope.position(), -64);
    for _ in 0..50 {
        envelope.tick();
    }
    envelope.trigger();
    assert_eq!(envelope.position(), -64);
}

#[test]
fn envelope_level_stays_in_range() {
    let mut envelope = EnvelopeGenerator::new();
    envelope.set_period(1);
    envelope.set_shape(0x0e);
    for _ in 0..1000 {
        envelope.tick();
        assert!(envelope.level() < 32);
        assert!(envelope.position() >= -64 && envelope.position() <= 63);
    }
}

#[test]
fn test_timer_creation() {
    let timer = Timer::new();
    assert!(!timer.is_active());
}

#[test]
fn test_timer_countdown() {
    let mut timer = Timer::new();
    timer.set_data(10);
    timer.set_control(0x01);
    for _ in 0..10 {
        timer.clock();
    }
    assert!(timer.has_expired());
}

#[test]
fn timer_not_expired_before_count() {
    let mut timer = Timer::new();
    timer.set_data(10);
    timer.set_control(0x01);
    for _ in 0..9 {
        timer.clock();
    }
    assert!(!timer.has_expired());
    assert_eq!(timer.get_data(), 10);
    assert_eq!(timer.get_control(), 0x01);
}

#[test]
fn mfp_clock_and_reset() {
    let mut mfp = Mfp::new();
    for _ in 0..10 {
        mfp.clock();
    }
    mfp.reset();
}

#[test]
fn test_mixer_config() {
    let mut config = MixerConfig::new();
    config.set_from_register(0x38);
    assert_eq!(config.tone_mask(), 0);
    config.set_from_register(0x3F);
    assert_eq!(config.tone_mask(), gate_mask(7));
}

#[test]
fn mixer_config_noise_mask_and_gate() {
    let mut config = MixerConfig::new();
    config.set_from_register(0x07);
    assert_eq!(config.tone_mask(), 0x7fff);
    assert_eq!(config.noise_mask(), 0);
    assert_eq!(config.compute_gate_mask(0, 0), 0);
    config.set_from_register(0x00);
    assert_eq!(config.compute_gate_mask(0x1f, 0xffff_ffff), 0x1f);
}

#[test]
fn mixer_test_channel_mute() {
    let mut mixer = Mixer::new();
    assert!(!mixer.is_muted(0));
    mixer.set_mute(0, true);
    assert!(mixer.is_muted(0));
    assert!(!mixer.is_muted(1));
    assert!(!mixer.is_muted(5));
}

#[test]
fn test_drum_override() {
    let mut mixer = Mixer::new();
    // A drum sample of 128.0, scaled as the mixer does (128 * 255 / 6).
    mixer.set_drum_override(0, Some(5440));
    let output = mixer.compute_channel_output(0, 0, false);
    assert!(output > 0);
    mixer.set_drum_override(0, None);
    let output_normal = mixer.compute_channel_output(0, 0, false);
    assert!(output_normal < output);
}

#[test]
fn mixer_levels_and_outputs() {
    let mut mixer = Mixer::new();
    let levels = mixer.compute_levels([0x0f, 0x10, 0x03], 7, 0x7fff);
    assert_eq!(levels, 30 | (7 << 5) | (6 << 10));
    assert_eq!(mixer.compute_channel_output(0, 31, false), 10922);
    assert_eq!(mixer.compute_channel_output(1, 31, true), 5461);
    assert_eq!(mixer.channel_outputs(), (10922, 5461, 0));
    mixer.set_drum_override(2, Some(50_000));
    assert_eq!(mixer.compute_channel_output(2, 0, false), 10922);
    mixer.reset();
    assert_eq!(mixer.channel_outputs(), (0, 0, 0));
}

#[test]
fn test_cycle_counter() {
    let mut counter = CycleCounter::new();
    assert_eq!(counter.get_cycles(), 0);
    counter.clock();
    assert_eq!(counter.get_cycles(), 1);
    counter.advance(99);
    assert_eq!(counter.get_cycles(), 100);
}

#[test]
fn cycle_counter_take_and_reset() {
    let mut counter = CycleCounter::new();
    counter.advance(42);
    assert_eq!(counter.take_and_reset(), 42);
    assert_eq!(counter.get_cycles(), 0);
}

#[test]
fn test_envelope_shape_creation() {
    assert_eq!(EnvelopeShape::from_value(0x00), EnvelopeShape::AttackDecay);
    assert_eq!(EnvelopeShape::from_value(0x0C), EnvelopeShape::SawtoothUp);
}

#[test]
fn envelope_shape_value_roundtrip() {
    for v in 0u8..16 {
        let shape = EnvelopeShape::from_value(v);
        assert_eq!(EnvelopeShape::from_value(shape.value()), shape);
    }
}

#[test]
fn envelope_shape_names() {
    assert_eq!(get_envelope_shape_name(0x0c), "SAWUP");
    assert_eq!(get_envelope_shape_name(0x1c), "SAWUP");
    assert_eq!(get_envelope_shape_name(0x02), "AD");
    assert_eq!(envelope_shape_name(0x0c), "////");
    assert_eq!(envelope_shape_name(0x08), "\\\\\\\\");
}

#[test]
fn channel_period_values() {
    assert_eq!(channel_period(0x34, 0x12), Some(0x234));
    assert_eq!(channel_period(0, 0), None);
}

#[test]
fn test_new_chip_has_default_state() {
    let chip = Ym2149::new();
    assert_eq!(chip.sample_rate(), 44_100);
    assert_eq!(chip.internal_clock(), 2_000_000 / 8);
}

#[test]
fn test_register_read_write() {
    let mut chip = Ym2149::new();
    chip.write_register(0, 0x55);
    assert_eq!(chip.read_register(0), 0x55);
    chip.write_register(1, 0xFF);
    assert_eq!(chip.read_register(1), 0x0F);
}

#[test]
fn test_reset_clears_state() {
    let mut chip = Ym2149::new();
    chip.write_register(0, 0x55);
    chip.write_register(8, 0x0F);
    chip.reset();
    assert_eq!(chip.read_register(0), 0);
    assert_eq!(chip.read_register(8), 0);
    assert_eq!(chip.read_register(7), 0x3F);
}

#[test]
fn test_sample_generation() {
    let mut chip = Ym2149::new();
    chip.write_register(0, 0x00);
    chip.write_register(1, 0x01);
    chip.write_register(8, 0x0F);
    chip.write_register(7, 0x3E);
    for _ in 0..100 {
        chip.clock();
    }
    let sample = chip.get_sample();
    assert!(sample.abs() > 0 || sample.abs() >= 0);
}

#[test]
fn chip_tone_produces_nonzero_output() {
    let mut chip = Ym2149::new();
    chip.write_register(0, 0x00);
    chip.write_register(1, 0x01);
    chip.write_register(8, 0x0F);
    chip.write_register(7, 0x3E);
    let mut any = false;
    for _ in 0..200 {
        chip.clock();
        if chip.get_sample() != 0 {
            any = true;
        }
    }
    assert!(any);
}

#[test]
fn test_channel_mute() {
    let mut chip = Ym2149::new();
    assert!(!chip.is_channel_muted(0));
    chip.set_channel_mute(0, true);
    assert!(chip.is_channel_muted(0));
    assert!(!chip.is_channel_muted(1));
}

#[test]
fn test_port_access() {
    let mut chip = Ym2149::new();
    chip.write_port(0, 5);
    chip.write_port(2, 0x0A);
    assert_eq!(chip.read_register(5), 0x0A);
}

#[test]
fn chip_registers_past_13_are_ignored() {
    let mut chip = Ym2149::new();
    chip.write_register(14, 0x12);
    assert_eq!(chip.read_register(14), 0);
    let dump = chip.dump_registers();
    assert_eq!(dump[7], 0x3f);
    assert_eq!(dump[14], 0);
    assert_eq!(dump[15], 0);
}

#[test]
fn chip_reset_twice_same_registers() {
    let mut chip = Ym2149::new();
    chip.write_register(3, 0x0a);
    chip.reset();
    let once = chip.dump_registers();
    chip.reset();
    assert_eq!(chip.dump_registers(), once);
}

#[test]
fn chip_load_and_dump_registers_masks() {
    let mut chip = Ym2149::new();
    let frame = [0xffu8; 16];
    chip.load_registers(&frame);
    let dump = chip.dump_registers();
    assert_eq!(dump[0], 0xff);
    assert_eq!(dump[1], 0x0f);
    assert_eq!(dump[6], 0x1f);
    assert_eq!(dump[13], 0x0f);
    assert_eq!(dump[14], 0);
}

#[test]
fn chip_muted_channels_output_zero() {
    let mut chip = Ym2149::new();
    chip.write_register(8, 0x0f);
    chip.write_register(9, 0x0f);
    chip.write_register(10, 0x0f);
    chip.write_register(7, 0x3f);
    chip.set_channel_mute(0, true);
    chip.set_channel_mute(1, true);
    chip.set_channel_mute(2, true);
    for _ in 0..10 {
        chip.clock();
    }
    assert_eq!(chip.get_channel_outputs(), (0, 0, 0));
}

use ym2149::psg_bank::PsgBank;

#[test]
fn test_psg_bank_creation() {
    let bank = PsgBank::new(2, 2_000_000);
    assert_eq!(bank.psg_count(), 2);
    assert_eq!(bank.channel_count(), 6);
    assert_eq!(bank.get_frequency(0), 2_000_000);
    assert_eq!(bank.get_frequency(1), 2_000_000);
}

#[test]
fn test_psg_bank_mixed_frequencies() {
    let bank = PsgBank::new_with_frequencies(vec![1_000_000, 2_000_000, 2_000_000]);
    assert_eq!(bank.psg_count(), 3);
    assert_eq!(bank.channel_count(), 9);
    assert_eq!(bank.get_frequency(0), 1_000_000);
    assert_eq!(bank.get_frequency(1), 2_000_000);
    assert_eq!(bank.get_frequency(2), 2_000_000);
}

#[test]
fn test_write_read_register() {
    let mut bank = PsgBank::new(2, 2_000_000);
    bank.write_register(0, 0x08, 0x0F);
    assert_eq!(bank.read_register(0, 0x08), 0x0F);
    bank.write_register(1, 0x08, 0x0A);
    assert_eq!(bank.read_register(1, 0x08), 0x0A);
    assert_eq!(bank.read_register(0, 0x08), 0x0F);
}

#[test]
fn test_generate_samples_interleaved() {
    let mut bank = PsgBank::new(2, 2_000_000);
    for i in 0..2 {
        bank.write_register(i, 0x07, 0x3E);
        bank.write_register(i, 0x00, 0x1C);
        bank.write_register(i, 0x01, 0x01);
        bank.write_register(i, 0x08, 0x0F);
    }
    let sums = bank.generate_samples_mixed(882);
    // Mixed output scaled as the float renderer does: sum / 32767 / chip count.
    let buffer: Vec<f32> = sums.iter().map(|&s| s as f32 / 32767.0 / 2.0).collect();
    assert_eq!(buffer.len(), 882);
    let has_signal = buffer.iter().any(|&s| s.abs() > 0.01);
    assert!(has_signal, "Expected non-zero samples");
}

#[test]
fn test_generate_samples_separate() {
    let mut bank = PsgBank::new(2, 2_000_000);
    bank.write_register(0, 0x07, 0x3E);
    bank.write_register(0, 0x00, 0x1C);
    bank.write_register(0, 0x08, 0x0F);
    bank.write_register(1, 0x07, 0x3E);
    bank.write_register(1, 0x00, 0x2A);
    bank.write_register(1, 0x08, 0x0F);
    let out = bank.generate_samples_separate(882);
    let buffer0: Vec<f32> = out[0].iter().map(|&s| s as f32 / 32767.0).collect();
    let buffer1: Vec<f32> = out[1].iter().map(|&s| s as f32 / 32767.0).collect();
    assert!(buffer0.iter().any(|&s| s.abs() > 0.01));
    assert!(buffer1.iter().any(|&s| s.abs() > 0.01));
}

#[test]
fn test_reset() {
    let mut bank = PsgBank::new(2, 2_000_000);
    bank.write_register(0, 0x08, 0x0F);
    bank.write_register(1, 0x08, 0x0F);
    bank.reset();
    assert_eq!(bank.read_register(0, 0x08), 0x00);
    assert_eq!(bank.read_register(1, 0x08), 0x00);
}

#[test]
fn psg_bank_mixed_is_sum_of_separate() {
    let mut a = PsgBank::new(2, 2_000_000);
    let mut b = PsgBank::new(2, 2_000_000);
    for bank in [&mut a, &mut b] {
        bank.write_register(0, 0x07, 0x3E);
        bank.write_register(0, 0x00, 0x40);
        bank.write_register(0, 0x08, 0x0C);
        bank.write_register(1, 0x07, 0x3D);
        bank.write_register(1, 0x02, 0x33);
        bank.write_register(1, 0x09, 0x0F);
    }
    let mixed = a.generate_samples_mixed(300);
    let sep = b.generate_samples_separate(300);
    for j in 0..300 {
        assert_eq!(mixed[j], sep[0][j] as i64 + sep[1][j] as i64);
    }
    assert_eq!(a.dump_all_registers(), b.dump_all_registers());
}

#[test]
fn test_volume_table_size() {
    assert_eq!(VOLUME_TABLE.len(), 16);
}

#[test]
fn test_volume_table_exponential_progression() {
    let mut ratios = Vec::new();
    for i in 1..VOLUME_TABLE.len() {
        let prev = VOLUME_TABLE[i - 1];
        if prev > 0 {
            ratios.push(VOLUME_TABLE[i] as f32 / prev as f32);
        }
    }
    let avg_ratio = ratios.iter().sum::<f32>() / ratios.len() as f32;
    assert!(avg_ratio > 1.2 && avg_ratio < 1.7);
}

use ym2149::channel_state::NoiseState;

#[test]
fn noise_state_from_registers() {
    let mut regs = [0u8; 16];
    regs[6] = 0xff;
    regs[7] = 0x38;
    let n = NoiseState::from_registers(&regs);
    assert_eq!(n.period, 31);
    assert!(!n.any_channel_enabled);
    regs[7] = 0x30;
    assert!(NoiseState::from_registers(&regs).any_channel_enabled);
}

use ym2149::ym2149::envelope::EnvelopeGen;

#[test]
fn envelope_gen_counts_phases() {
    let mut env = EnvelopeGen::new();
    env.set_frequency(0, 0);
    assert_eq!(env.freq_period(), 1);
    env.set_frequency(0xff, 0x01);
    assert_eq!(env.freq_period(), 0x1ff);
    env.set_shape(EnvelopeShape::SawtoothUp);
    assert_eq!(env.lookup_index(), (8, 0, 0));
    env.set_step(0x4000_0000);
    env.clock();
    assert_eq!(env.lookup_index(), (8, 0, 8));
    env.clock();
    env.clock();
    env.clock();
    // The accumulator wrapped: the first phase is over.
    assert_eq!(env.lookup_index(), (8, 1, 0));
    env.trigger();
    assert_eq!(env.lookup_index(), (8, 0, 0));
    env.set_shape(EnvelopeShape::SawtoothDownOnce);
    assert_eq!(env.lookup_index().0, 10);
    env.set_shape(EnvelopeShape::AttackHoldLong);
    assert_eq!(env.lookup_index().0, 9);
}

/// The accumulator step for a master clock and sample rate, computed as the
/// player computes it.
fn envelope_step(env: &EnvelopeGen, master_clock: u32, sample_rate: u32) -> u32 {
    let period = env.freq_period().max(1) as f64;
    let step = (master_clock as f64) / (period * 256.0 * (sample_rate as f64));
    (step * (65536.0 * 65536.0)) as u32
}

#[test]
fn envelope_test_envelope_trigger() {
    let mut env = EnvelopeGen::new();
    env.set_frequency(0xFF, 0x00);
    let step = envelope_step(&env, 2_000_000, 44_100);
    env.set_step(step);
    env.set_shape(EnvelopeShape::AttackDecay);

    let (pattern, phase, position) = env.lookup_index();
    assert_eq!(phase, 0);
    assert_eq!(pattern, 0);
    // Pattern 0 starts its first phase at level 0, the quietest volume.
    assert_eq!(position, 0);
}

#[test]
fn test_envelope_sawtooth_down_once() {
    let mut env = EnvelopeGen::new();
    env.set_frequency(0x00, 0x01);
    let step = envelope_step(&env, 2_000_000, 44_100);
    env.set_step(step);
    env.set_shape(EnvelopeShape::SawtoothDownOnce);

    let mut observed_phases = std::collections::HashSet::new();
    for _ in 0..10000 {
        env.clock();
        observed_phases.insert(env.lookup_index().1);
    }
    assert!(
        observed_phases.contains(&0) && observed_phases.contains(&1),
        "Should observe phases 0 (attack) and 1 (silence), got {:?}",
        observed_phases
    );
    assert_eq!(observed_phases.len(), 2, "got {:?}", observed_phases);
}

#[test]
fn test_envelope_timing_accuracy() {
    let mut env = EnvelopeGen::new();
    env.set_frequency(0x00, 0x01);
    let step = envelope_step(&env, 2_000_000, 44_100);
    env.set_step(step);
    env.set_shape(EnvelopeShape::SawtoothUp);

    let mut phase_changes = 0;
    for _ in 0..10000 {
        let old_phase = env.lookup_index().1;
        env.clock();
        if env.lookup_index().1 != old_phase {
            phase_changes += 1;
        }
    }
    assert_eq!(phase_changes, 1, "got {}", phase_changes);
}

#[test]
fn test_volume_table_edge_values() {
    assert!((VOLUME_TABLE[0] as f32 / 32767.0) < 0.001, "Lowest level should be near silence");
    assert!(((VOLUME_TABLE[15] as f32 / 32767.0) - (10922.0 / 32767.0)).abs() < 1e-6);
}

use ym2149::channel_state::ChannelStates;

#[test]
fn test_extract_channel_a() {
    let mut regs = [0u8; 16];
    regs[0] = 0x1C;
    regs[1] = 0x01;
    regs[7] = 0x3E;
    regs[8] = 0x0F;

    let states = ChannelStates::from_registers(&regs);

    assert_eq!(states.channels[0].tone_period, 284);
    assert_eq!(states.channels[0].amplitude, 15);
    assert!(states.channels[0].tone_enabled);
    assert!(!states.channels[0].noise_enabled);

    // Frequency = master clock / (16 * period), about 440 Hz (A4).
    let freq = 2_000_000.0f32 / (16.0 * states.channels[0].tone_period as f32);
    assert!((freq - 440.0).abs() < 5.0, "Expected ~440Hz, got {}", freq);
}

#[test]
fn test_envelope_mode() {
    let mut regs = [0u8; 16];
    regs[8] = 0x1F;
    regs[11] = 0x00;
    regs[12] = 0x10;
    regs[13] = 0x0E;

    let states = ChannelStates::from_registers(&regs);

    assert!(states.channels[0].envelope_enabled);
    assert_eq!(states.envelope.period, 4096);
    assert_eq!(states.envelope.shape, 0x0E);
    assert!(states.envelope.is_sustaining);
}

#[test]
fn channel_states_active_and_max_level() {
    let mut regs = [0u8; 16];
    regs[7] = 0b0011_1101; // tone B on only
    regs[8] = 0x05;
    regs[9] = 0x07;
    regs[10] = 0x1F;
    regs[13] = 0x09;
    let states = ChannelStates::from_registers(&regs);
    assert_eq!(states.active_channels(), vec![1, 2]);
    assert!(states.any_envelope_enabled());
    assert_eq!(states.max_amplitude_level(), 15);
    assert_eq!(states.envelope.shape_name, "\\___");
    assert!(!states.noise.any_channel_enabled);
    assert_eq!(states.mixer_raw, 0x3D);
}

use ym2149::export::mono_to_stereo;

#[test]
fn test_mono_to_stereo() {
    let mono = vec![0.1, 0.2, 0.3];
    let stereo = mono_to_stereo(&mono);

    assert_eq!(stereo.len(), 6);
    assert_eq!(stereo, vec![0.1, 0.1, 0.2, 0.2, 0.3, 0.3]);
}

#[test]
fn envelope_steps_once_per_period_then_repeats_second_half() {
    for &(period, shape) in &[(3u32, 0x0Eu8), (0u32, 0x08u8), (1u32, 0x0Au8), (5u32, 0x0Du8)] {
        let mut envelope = EnvelopeGenerator::new();
        envelope.set_period(period);
        envelope.set_shape(shape);
        let q = if period >= 1 { period as usize } else { 1 };
        let offset = shape_to_env(shape & 0x0F) as usize * 128;
        for k in 0..1000usize {
            let n = k / q;
            let step = if n < 64 { n } else { 64 + (n - 64) % 64 };
            assert_eq!(envelope.position() as i64, step as i64 - 64);
            assert_eq!(envelope.level(), env_data(offset + step) as u32);
            envelope.tick();
        }
    }
}
