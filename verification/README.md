# ym2149

Emulation of the Yamaha YM2149 programmable sound generator (the sound chip
of the Atari ST) and of the players built on it, written in Verus: every
function of the library carries a contract. Verus proves them all except
those of four small wrappers around standard-library string functions
(`String::from_utf8_lossy`, `str::to_lowercase`, `String::push`,
`String::pop`), whose contracts are taken on trust.

## Layout

- `src/` — the verified library
  - `chip.rs`, `generators.rs`, `mixer.rs`, `dc_filter.rs`, `tables.rs`,
    `cycle_counter.rs`, `bits.rs`: the cycle-accurate chip, its tone, noise
    and envelope generators, the mixer and the DC filter
  - `ym2149/`: the sample-rate chip used by the players, and the envelope
    shapes
  - `psg_bank.rs`: several chips side by side
  - `mfp.rs`, `gist/`: the MFP timers and the GIST sound-effect driver and
    player, with what its ticks do to a sound over time
  - `replayer/`: YM file readers (YM2, YM3b loop points, YMT tracker
    songs), the frame player and VBL timing; tracker songs load but are not
    rendered, and the YM effects (SID, sync buzzer, digi-drums) are not
    produced
  - `channel_state.rs`, `util.rs`: register decoding for display
  - `cli/`: logic of the command-line player (arguments, keys and what
    they do, status lines, snapshot delay, sample ring buffer, playlist)
  - `text.rs`, `metadata.rs`, `export.rs`: text helpers, song-collection
    catalogue helpers, stereo sample layout
- `app/` — the program around the library: file and terminal I/O, WAV
  output, a key-driven playlist session over a directory, and the
  floating-point views of the library's integer values
- `tests/` — tests of the library on concrete values
