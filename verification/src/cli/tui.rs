//! Decisions of the interactive player: what a key press does to the
//! playlist overlay, the volume and the playback, and when the next song of
//! a playlist is loaded. The caller reads the keys, asks the player for the
//! facts these decisions need, and carries out the returned action.

use vstd::prelude::*;
use crate::cli::playlist::{
    lemma_jump_stays_in_list, lemma_moves_stay_in_list, lemma_step_stays_in_list, next_index,
    page_down_index, page_up_index, previous_index, Playlist, PAGE_STEP,
};

verus! {

/// A key press, as far as the player tells keys apart.
#[derive(Debug, Clone, Copy, PartialEq, Eq, Structural)]
pub enum KeyInput {
    Esc,
    Backspace,
    Up,
    Down,
    Left,
    Right,
    PageUp,
    PageDown,
    Enter,
    Char(char),
    Other,
}

/// What the player reports when a key is handled.
#[derive(Debug, Clone, Copy, PartialEq, Eq)]
pub struct PlayerFacts {
    /// Whether it is playing.
    pub playing: bool,
    /// Number of channels (three per chip).
    pub channel_count: usize,
    /// Whether the song has several subsongs.
    pub has_subsongs: bool,
    /// The current subsong (from 1).
    pub current_subsong: usize,
    /// Number of subsongs.
    pub subsong_count: usize,
}

/// Why a song is loaded, which decides what happens once it is.
#[derive(Debug, Clone, Copy, PartialEq, Eq, Structural)]
pub enum LoadOrigin {
    /// Chosen with Enter in the playlist overlay.
    Overlay,
    /// Skipped to with the next or previous song keys.
    Skip,
    /// The song before it ended.
    Auto,
}

/// What the caller is to do after a decision.
#[derive(Debug, Clone, PartialEq, Eq)]
pub enum TuiAction {
    /// Nothing.
    Nothing,
    /// Leave the player.
    Quit,
    /// Start or resume playback.
    Play,
    /// Pause playback.
    Pause,
    /// Mute the channel if it plays, unmute it if it is muted.
    ToggleMute(usize),
    /// Switch to this subsong.
    SetSubsong(usize),
    /// Set the master volume, in percent.
    SetVolume(u8),
    /// Load the song at this path; report success with `on_loaded`.
    Load(String, LoadOrigin),
}

/// Volume change of one key press, in percent.
pub const VOLUME_STEP: u8 = 5;

/// The interactive player's own state.
pub struct TuiState {
    /// The playlist, in directory mode.
    pub playlist: Option<Playlist>,
    /// Whether the playlist overlay is shown.
    pub show_playlist: bool,
    /// Whether a song has been played (songs advance only after that).
    pub has_started_playback: bool,
    /// Master volume in percent.
    pub volume_percent: u8,
}

/// The selection lies in the list (or is zero for an empty list), and the
/// list is short enough for a page move to stay in machine range.
pub open spec fn playlist_ok(p: Playlist) -> bool {
    &&& p.entries@.len() + PAGE_STEP < usize::MAX
    &&& p.entries@.len() == 0 ==> p.selected == 0
    &&& p.entries@.len() > 0 ==> p.selected < p.entries@.len()
}

/// The song that the list selects, to be loaded for `origin`; nothing when
/// the selection lies outside the list.
pub open spec fn load_selected(p: Playlist, origin: LoadOrigin, a: TuiAction) -> bool {
    if p.selected < p.entries@.len() {
        (a matches TuiAction::Load(path, o) && path@ == p.entries@[p.selected as int].path@ && o
            == origin)
    } else {
        a == TuiAction::Nothing
    }
}

/// `t` is `s` with another playlist.
pub open spec fn same_but_playlist(s: TuiState, t: TuiState) -> bool {
    &&& t.show_playlist == s.show_playlist
    &&& t.has_started_playback == s.has_started_playback
    &&& t.volume_percent == s.volume_percent
}

/// `t` is `s` with its playlist changed as `step` says, or unchanged
/// without a playlist; nothing to do either way.
pub open spec fn playlist_step(
    s: TuiState,
    t: TuiState,
    a: TuiAction,
    step: spec_fn(Playlist, Playlist) -> bool,
) -> bool {
    &&& same_but_playlist(s, t)
    &&& a == TuiAction::Nothing
    &&& match s.playlist {
        Some(p) => (t.playlist matches Some(q) && step(p, q)),
        None => t == s,
    }
}

/// A key press while the playlist overlay is shown: Esc clears the query,
/// or closes the overlay when there is none; P closes it and Q quits
/// unless a query is being typed; Backspace edits the query; Up and Down
/// move the selection, or go to the previous or next match while a query
/// is typed; page keys move by pages; Enter clears the query and loads the
/// selected song; any other character is typed into the query.
pub open spec fn overlay_key(s: TuiState, key: KeyInput, t: TuiState, a: TuiAction) -> bool {
    let searching = s.playlist matches Some(p) && p.search_query@.len() > 0;
    match key {
        KeyInput::Esc => {
            &&& a == TuiAction::Nothing
            &&& t.has_started_playback == s.has_started_playback
            &&& t.volume_percent == s.volume_percent
            &&& if searching {
                t.show_playlist == s.show_playlist && (t.playlist matches Some(q)
                    && s.playlist->0.cleared_to(q))
            } else {
                t.playlist == s.playlist && !t.show_playlist
            }
        },
        KeyInput::Backspace => playlist_step(s, t, a, |p: Playlist, q: Playlist| p.backspaced_to(q)),
        KeyInput::Up => if searching {
            playlist_step(s, t, a, |p: Playlist, q: Playlist| p.searched_to(false, q))
        } else {
            playlist_step(
                s,
                t,
                a,
                |p: Playlist, q: Playlist|
                    p.moved_to(q, previous_index(p.selected as int, p.entries@.len() as int)),
            )
        },
        KeyInput::Down => if searching {
            playlist_step(s, t, a, |p: Playlist, q: Playlist| p.searched_to(true, q))
        } else {
            playlist_step(
                s,
                t,
                a,
                |p: Playlist, q: Playlist|
                    p.moved_to(q, next_index(p.selected as int, p.entries@.len() as int)),
            )
        },
        KeyInput::PageUp => playlist_step(
            s,
            t,
            a,
            |p: Playlist, q: Playlist|
                p.moved_to(q, page_up_index(p.selected as int, p.entries@.len() as int)),
        ),
        KeyInput::PageDown => playlist_step(
            s,
            t,
            a,
            |p: Playlist, q: Playlist|
                p.moved_to(q, page_down_index(p.selected as int, p.entries@.len() as int)),
        ),
        KeyInput::Enter => {
            &&& same_but_playlist(s, t)
            &&& match s.playlist {
                Some(p) => (t.playlist matches Some(q) && p.cleared_to(q) && load_selected(
                    q,
                    LoadOrigin::Overlay,
                    a,
                )),
                None => t == s && a == TuiAction::Nothing,
            }
        },
        KeyInput::Char(c) => if (c == 'p' || c == 'P') && !searching {
            t.playlist == s.playlist && !t.show_playlist && t.has_started_playback
                == s.has_started_playback && t.volume_percent == s.volume_percent && a
                == TuiAction::Nothing
        } else if (c == 'q' || c == 'Q') && !searching {
            t == s && a == TuiAction::Quit
        } else {
            playlist_step(s, t, a, |p: Playlist, q: Playlist| p.appended_to(c, q))
        },
        _ => t == s && a == TuiAction::Nothing,
    }
}

/// The next subsong, wrapping from the last to the first.
pub open spec fn next_subsong(f: PlayerFacts) -> int {
    if f.current_subsong >= f.subsong_count {
        1
    } else {
        f.current_subsong + 1
    }
}

/// The previous subsong, wrapping from the first to the last.
pub open spec fn previous_subsong(f: PlayerFacts) -> int {
    if f.current_subsong <= 1 {
        f.subsong_count as int
    } else {
        f.current_subsong - 1
    }
}

/// A key press during playback: Q quits; P shows or hides the playlist;
/// space pauses or plays; 1 to 9 and 0 toggle the mute of channels 1 to 10
/// that exist; Up, `+` and `=` go to the next subsong and Down, `-` and `_`
/// to the previous one when there are several; Right and Left turn the
/// volume up and down by five percent within 0 to 100; `]`, `>` and `.` load
/// the next song of the playlist, `[`, `<` and `,` the previous one.
pub open spec fn normal_key(
    s: TuiState,
    key: KeyInput,
    f: PlayerFacts,
    t: TuiState,
    a: TuiAction,
) -> bool {
    let up = key == KeyInput::Up || key == KeyInput::Char('+') || key == KeyInput::Char('=');
    let down = key == KeyInput::Down || key == KeyInput::Char('-') || key == KeyInput::Char('_');
    let next_song = key == KeyInput::Char(']') || key == KeyInput::Char('>') || key
        == KeyInput::Char('.');
    let previous_song = key == KeyInput::Char('[') || key == KeyInput::Char('<') || key
        == KeyInput::Char(',');
    if key == KeyInput::Char('q') || key == KeyInput::Char('Q') {
        t == s && a == TuiAction::Quit
    } else if key == KeyInput::Char('p') || key == KeyInput::Char('P') {
        &&& t.playlist == s.playlist
        &&& t.show_playlist == (if s.playlist is Some {
            !s.show_playlist
        } else {
            s.show_playlist
        })
        &&& t.has_started_playback == s.has_started_playback
        &&& t.volume_percent == s.volume_percent
        &&& a == TuiAction::Nothing
    } else if key == KeyInput::Char(' ') {
        t == s && a == (if f.playing {
            TuiAction::Pause
        } else {
            TuiAction::Play
        })
    } else if (key matches KeyInput::Char(c) && '1' <= c <= '9') {
        let ch = (key->Char_0 as int) - ('1' as int);
        t == s && a == (if ch < f.channel_count {
            TuiAction::ToggleMute(ch as usize)
        } else {
            TuiAction::Nothing
        })
    } else if key == KeyInput::Char('0') {
        t == s && a == (if f.channel_count > 9 {
            TuiAction::ToggleMute(9)
        } else {
            TuiAction::Nothing
        })
    } else if up {
        t == s && a == (if f.has_subsongs {
            TuiAction::SetSubsong(next_subsong(f) as usize)
        } else {
            TuiAction::Nothing
        })
    } else if down {
        t == s && a == (if f.has_subsongs {
            TuiAction::SetSubsong(previous_subsong(f) as usize)
        } else {
            TuiAction::Nothing
        })
    } else if key == KeyInput::Right || key == KeyInput::Left {
        let v = if key == KeyInput::Right {
            if s.volume_percent + VOLUME_STEP <= 100 {
                s.volume_percent + VOLUME_STEP
            } else {
                100
            }
        } else {
            if s.volume_percent >= VOLUME_STEP {
                s.volume_percent - VOLUME_STEP
            } else {
                0
            }
        };
        &&& t.playlist == s.playlist
        &&& t.show_playlist == s.show_playlist
        &&& t.has_started_playback == s.has_started_playback
        &&& t.volume_percent == v
        &&& a == TuiAction::SetVolume(v as u8)
    } else if next_song || previous_song {
        &&& same_but_playlist(s, t)
        &&& match s.playlist {
            Some(p) => (t.playlist matches Some(q) && p.moved_to(
                q,
                if next_song {
                    next_index(p.selected as int, p.entries@.len() as int)
                } else {
                    previous_index(p.selected as int, p.entries@.len() as int)
                },
            ) && load_selected(q, LoadOrigin::Skip, a)),
            None => t == s && a == TuiAction::Nothing,
        }
    } else {
        t == s && a == TuiAction::Nothing
    }
}

/// At each frame: once a song has been played and the overlay is closed,
/// a stopped song makes the selected one load.
pub open spec fn frame_result(s: TuiState, stopped: bool, a: TuiAction) -> bool {
    if s.playlist is Some && !s.show_playlist && s.has_started_playback && stopped {
        load_selected(s.playlist->0, LoadOrigin::Auto, a)
    } else {
        a == TuiAction::Nothing
    }
}

/// After a requested song has loaded: playback has started; a song chosen
/// in the overlay closes it; a song that followed the previous one moves
/// the selection down.
pub open spec fn loaded_result(s: TuiState, origin: LoadOrigin, t: TuiState) -> bool {
    &&& t.has_started_playback
    &&& t.volume_percent == s.volume_percent
    &&& match origin {
        LoadOrigin::Overlay => t.playlist == s.playlist && !t.show_playlist,
        LoadOrigin::Skip => t.playlist == s.playlist && t.show_playlist == s.show_playlist,
        LoadOrigin::Auto => t.show_playlist == s.show_playlist && match s.playlist {
            Some(p) => (t.playlist matches Some(q) && p.moved_to(
                q,
                next_index(p.selected as int, p.entries@.len() as int),
            )),
            None => t.playlist is None,
        },
    }
}

impl TuiState {
    /// The state is usable: a playlist with its selection in range, a
    /// volume of at most 100 percent.
    pub open spec fn wf(&self) -> bool {
        &&& self.playlist matches Some(p) ==> playlist_ok(p)
        &&& self.volume_percent <= 100
    }

    /// The state at start: with a playlist, its overlay is shown and no
    /// song has been played yet; without one, the song plays at once. Full
    /// volume.
    pub fn new(playlist: Option<Playlist>) -> (s: Self)
        requires
            playlist matches Some(p) ==> playlist_ok(p),
        ensures
            s.wf(),
            s.playlist == playlist,
            s.show_playlist == playlist is Some,
            s.has_started_playback == playlist is None,
            s.volume_percent == 100,
    {
        let with_list = playlist.is_some();
        TuiState {
            playlist,
            show_playlist: with_list,
            has_started_playback: !with_list,
            volume_percent: 100,
        }
    }

    /// The load action for the selected song of the playlist `p`.
    fn load_action(p: &Playlist, origin: LoadOrigin) -> (a: TuiAction)
        ensures
            load_selected(*p, origin, a),
    {
        match p.selected_path() {
            Some(path) => TuiAction::Load(String::from_str(path), origin),
            None => TuiAction::Nothing,
        }
    }
    /// Handles a key press: in the playlist overlay when it is shown,
    /// otherwise as a playback key, with the player's `facts`.
    pub fn on_key(&mut self, key: KeyInput, facts: PlayerFacts) -> (a: TuiAction)
        requires
            old(self).wf(),
        ensures
            final(self).wf(),
            old(self).show_playlist ==> overlay_key(*old(self), key, *final(self), a),
            !old(self).show_playlist ==> normal_key(*old(self), key, facts, *final(self), a),
    {
        if self.show_playlist {
            self.on_overlay_key(key)
        } else {
            self.on_normal_key(key, facts)
        }
    }

    fn on_overlay_key(&mut self, key: KeyInput) -> (a: TuiAction)
        requires
            old(self).wf(),
        ensures
            final(self).wf(),
            overlay_key(*old(self), key, *final(self), a),
    {
        let searching = match &self.playlist {
            Some(p) => p.is_searching(),
            None => false,
        };
        match key {
            KeyInput::Esc => {
                if searching {
                    let mut p = self.playlist.take().unwrap();
                    p.search_clear();
                    self.playlist = Some(p);
                } else {
                    self.show_playlist = false;
                }
                TuiAction::Nothing
            },
            KeyInput::Backspace => {
                if let Some(mut p) = self.playlist.take() {
                    let ghost p0 = p;
                    p.search_backspace();
                    proof {
                        if p0.entries@.len() > 0 && p.search_query@.len() > 0 {
                            lemma_jump_stays_in_list(
                                p0.entries@,
                                p0.selected as int,
                                crate::text::lowercase(p.search_query@),
                                vstd::utf8::encode_utf8(p.search_query@).len() as usize == 1,
                                p.selected as int,
                            );
                        }
                    }
                    self.playlist = Some(p);
                }
                TuiAction::Nothing
            },
            KeyInput::Up | KeyInput::Down => {
                let forward = key == KeyInput::Down;
                if let Some(mut p) = self.playlist.take() {
                    let ghost p0 = p;
                    if searching {
                        if forward {
                            p.search_next();
                        } else {
                            p.search_previous();
                        }
                        proof {
                            if p0.entries@.len() > 0 {
                                lemma_step_stays_in_list(
                                    p0.entries@,
                                    p0.selected as int,
                                    crate::text::lowercase(p0.search_query@),
                                    forward,
                                    p.selected as int,
                                );
                            }
                        }
                    } else {
                        if forward {
                            p.select_next();
                        } else {
                            p.select_previous();
                        }
                        proof {
                            if p0.entries@.len() > 0 {
                                lemma_moves_stay_in_list(p0.selected as int, p0.entries@.len() as int);
                            }
                        }
                    }
                    self.playlist = Some(p);
                }
                TuiAction::Nothing
            },
            KeyInput::PageUp | KeyInput::PageDown => {
                if let Some(mut p) = self.playlist.take() {
                    let ghost p0 = p;
                    if key == KeyInput::PageUp {
                        p.page_up();
                    } else {
                        p.page_down();
                    }
                    proof {
                        if p0.entries@.len() > 0 {
                            lemma_moves_stay_in_list(p0.selected as int, p0.entries@.len() as int);
                        }
                    }
                    self.playlist = Some(p);
                }
                TuiAction::Nothing
            },
            KeyInput::Enter => {
                if let Some(mut p) = self.playlist.take() {
                    p.search_clear();
                    let a = TuiState::load_action(&p, LoadOrigin::Overlay);
                    self.playlist = Some(p);
                    a
                } else {
                    TuiAction::Nothing
                }
            },
            KeyInput::Char(c) => {
                if (c == 'p' || c == 'P') && !searching {
                    self.show_playlist = false;
                    TuiAction::Nothing
                } else if (c == 'q' || c == 'Q') && !searching {
                    TuiAction::Quit
                } else {
                    if let Some(mut p) = self.playlist.take() {
                        let ghost p0 = p;
                        p.search_append(c);
                        proof {
                            if p0.entries@.len() > 0 {
                                lemma_jump_stays_in_list(
                                    p0.entries@,
                                    p0.selected as int,
                                    crate::text::lowercase(p.search_query@),
                                    vstd::utf8::encode_utf8(p.search_query@).len() as usize == 1,
                                    p.selected as int,
                                );
                            }
                        }
                        self.playlist = Some(p);
                    }
                    TuiAction::Nothing
                }
            },
            _ => TuiAction::Nothing,
        }
    }
    fn on_normal_key(&mut self, key: KeyInput, facts: PlayerFacts) -> (a: TuiAction)
        requires
            old(self).wf(),
        ensures
            final(self).wf(),
            normal_key(*old(self), key, facts, *final(self), a),
    {
        match key {
            KeyInput::Char(c) => {
                if c == 'q' || c == 'Q' {
                    TuiAction::Quit
                } else if c == 'p' || c == 'P' {
                    if self.playlist.is_some() {
                        self.show_playlist = !self.show_playlist;
                    }
                    TuiAction::Nothing
                } else if c == ' ' {
                    if facts.playing {
                        TuiAction::Pause
                    } else {
                        TuiAction::Play
                    }
                } else if '1' <= c && c <= '9' {
                    let ch = (c as u32 - '1' as u32) as usize;
                    if ch < facts.channel_count {
                        TuiAction::ToggleMute(ch)
                    } else {
                        TuiAction::Nothing
                    }
                } else if c == '0' {
                    if facts.channel_count > 9 {
                        TuiAction::ToggleMute(9)
                    } else {
                        TuiAction::Nothing
                    }
                } else if c == '+' || c == '=' {
                    Self::subsong_action(facts, true)
                } else if c == '-' || c == '_' {
                    Self::subsong_action(facts, false)
                } else if c == ']' || c == '>' || c == '.' {
                    self.skip_song(true)
                } else if c == '[' || c == '<' || c == ',' {
                    self.skip_song(false)
                } else {
                    TuiAction::Nothing
                }
            },
            KeyInput::Up => Self::subsong_action(facts, true),
            KeyInput::Down => Self::subsong_action(facts, false),
            KeyInput::Right => {
                let v = self.volume_percent;
                self.volume_percent = if v + VOLUME_STEP <= 100 {
                    v + VOLUME_STEP
                } else {
                    100
                };
                TuiAction::SetVolume(self.volume_percent)
            },
            KeyInput::Left => {
                let v = self.volume_percent;
                self.volume_percent = if v >= VOLUME_STEP {
                    v - VOLUME_STEP
                } else {
                    0
                };
                TuiAction::SetVolume(self.volume_percent)
            },
            _ => TuiAction::Nothing,
        }
    }

    /// The subsong key's action: the next or previous subsong, wrapping,
    /// when the song has several.
    fn subsong_action(facts: PlayerFacts, forward: bool) -> (a: TuiAction)
        ensures
            a == (if facts.has_subsongs {
                TuiAction::SetSubsong(
                    (if forward {
                        next_subsong(facts)
                    } else {
                        previous_subsong(facts)
                    }) as usize,
                )
            } else {
                TuiAction::Nothing
            }),
    {
        if !facts.has_subsongs {
            return TuiAction::Nothing;
        }
        let current = facts.current_subsong;
        let count = facts.subsong_count;
        if forward {
            TuiAction::SetSubsong(
                if current >= count {
                    1
                } else {
                    current + 1
                },
            )
        } else {
            TuiAction::SetSubsong(
                if current <= 1 {
                    count
                } else {
                    current - 1
                },
            )
        }
    }

    /// Moves the playlist selection to the next or previous song and asks
    /// for it to be loaded.
    fn skip_song(&mut self, forward: bool) -> (a: TuiAction)
        requires
            old(self).wf(),
        ensures
            final(self).wf(),
            same_but_playlist(*old(self), *final(self)),
            match old(self).playlist {
                Some(p) => (final(self).playlist matches Some(q) && p.moved_to(
                    q,
                    if forward {
                        next_index(p.selected as int, p.entries@.len() as int)
                    } else {
                        previous_index(p.selected as int, p.entries@.len() as int)
                    },
                ) && load_selected(q, LoadOrigin::Skip, a)),
                None => *final(self) == *old(self) && a == TuiAction::Nothing,
            },
    {
        if let Some(mut p) = self.playlist.take() {
            let ghost p0 = p;
            if forward {
                p.select_next();
            } else {
                p.select_previous();
            }
            proof {
                if p0.entries@.len() > 0 {
                    lemma_moves_stay_in_list(p0.selected as int, p0.entries@.len() as int);
                }
            }
            let a = TuiState::load_action(&p, LoadOrigin::Skip);
            self.playlist = Some(p);
            a
        } else {
            TuiAction::Nothing
        }
    }
    /// What to do at a frame, given whether the song has stopped.
    pub fn on_frame(&self, stopped: bool) -> (a: TuiAction)
        ensures
            frame_result(*self, stopped, a),
    {
        if stopped && !self.show_playlist && self.has_started_playback {
            match &self.playlist {
                Some(p) => TuiState::load_action(p, LoadOrigin::Auto),
                None => TuiAction::Nothing,
            }
        } else {
            TuiAction::Nothing
        }
    }

    /// Records that the song requested for `origin` has loaded.
    pub fn on_loaded(&mut self, origin: LoadOrigin)
        requires
            old(self).wf(),
        ensures
            final(self).wf(),
            loaded_result(*old(self), origin, *final(self)),
    {
        self.has_started_playback = true;
        match origin {
            LoadOrigin::Overlay => {
                self.show_playlist = false;
            },
            LoadOrigin::Skip => {},
            LoadOrigin::Auto => {
                if let Some(mut p) = self.playlist.take() {
                    let ghost p0 = p;
                    p.select_next();
                    proof {
                        if p0.entries@.len() > 0 {
                            lemma_moves_stay_in_list(p0.selected as int, p0.entries@.len() as int);
                        }
                    }
                    self.playlist = Some(p);
                }
            },
        }
    }
}

} // verus!
