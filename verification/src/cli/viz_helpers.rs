//! The compact status line of one channel: tone and noise flags, level,
//! envelope shape and the special effects that are active.

use vstd::prelude::*;

verus! {

/// The decimal digit character of `d` (below ten).
pub open spec fn digit_char(d: nat) -> char {
    if d == 0 { '0' }
    else if d == 1 { '1' }
    else if d == 2 { '2' }
    else if d == 3 { '3' }
    else if d == 4 { '4' }
    else if d == 5 { '5' }
    else if d == 6 { '6' }
    else if d == 7 { '7' }
    else if d == 8 { '8' }
    else { '9' }
}

/// The decimal writing of `n`, without leading zeros.
pub open spec fn decimal(n: nat) -> Seq<char>
    decreases n,
{
    if n < 10 {
        seq![digit_char(n)]
    } else {
        decimal(n / 10).push(digit_char(n % 10))
    }
}

/// The bracketed effect list: the names of the active effects among SID,
/// DRUM and SYNC, in that order, joined by `|`; nothing when none is active.
pub open spec fn effects_part(sid: bool, drum: bool, sync: bool) -> Seq<char> {
    let sid_s = if sid { seq!['S', 'I', 'D'] } else { Seq::<char>::empty() };
    let drum_s = if drum {
        (if sid { seq!['|'] } else { Seq::<char>::empty() }) + seq!['D', 'R', 'U', 'M']
    } else {
        Seq::<char>::empty()
    };
    let sync_s = if sync {
        (if sid || drum { seq!['|'] } else { Seq::<char>::empty() }) + seq!['S', 'Y', 'N', 'C']
    } else {
        Seq::<char>::empty()
    };
    if sid || drum || sync {
        seq![' ', '['] + sid_s + drum_s + sync_s + seq![']']
    } else {
        Seq::<char>::empty()
    }
}

/// The status line: `T` or `-`, `N` or `-`, then ` E:` (envelope) or ` A:`
/// and the amplitude in decimal, then the envelope shape's name after a
/// space when the envelope is on and the name is not empty, then the
/// effect list.
pub open spec fn channel_status(
    tone_enabled: bool,
    noise_enabled: bool,
    amplitude: u8,
    envelope_enabled: bool,
    envelope_shape: Seq<char>,
    sid_active: bool,
    drum_active: bool,
    sync_buzzer_active: bool,
) -> Seq<char> {
    seq![if tone_enabled { 'T' } else { '-' }, if noise_enabled { 'N' } else { '-' }, ' ',
        if envelope_enabled { 'E' } else { 'A' }, ':']
        + decimal(amplitude as nat)
        + (if envelope_enabled && envelope_shape.len() > 0 { seq![' '] + envelope_shape } else { Seq::<char>::empty() })
        + effects_part(sid_active, drum_active, sync_buzzer_active)
}

/// The one-character string of a decimal digit.
pub(crate) fn digit_str(d: u8) -> (s: &'static str)
    requires
        d < 10,
    ensures
        s@ == seq![digit_char(d as nat)],
{
    if d == 0 {
        proof { reveal_strlit("0"); }
        "0"
    } else if d == 1 {
        proof { reveal_strlit("1"); }
        "1"
    } else if d == 2 {
        proof { reveal_strlit("2"); }
        "2"
    } else if d == 3 {
        proof { reveal_strlit("3"); }
        "3"
    } else if d == 4 {
        proof { reveal_strlit("4"); }
        "4"
    } else if d == 5 {
        proof { reveal_strlit("5"); }
        "5"
    } else if d == 6 {
        proof { reveal_strlit("6"); }
        "6"
    } else if d == 7 {
        proof { reveal_strlit("7"); }
        "7"
    } else if d == 8 {
        proof { reveal_strlit("8"); }
        "8"
    } else {
        proof { reveal_strlit("9"); }
        "9"
    }
}

/// Appends the decimal writing of `n` to `out`.
fn append_decimal(out: &mut String, n: u8)
    ensures
        final(out)@ == old(out)@ + decimal(n as nat),
{
    let ghost o = out@;
    let ghost k = n as nat;
    if n >= 100 {
        let hundreds = digit_str(n / 100);
        let tens = digit_str((n / 10) % 10);
        let units = digit_str(n % 10);
        out.append(hundreds);
        out.append(tens);
        out.append(units);
        proof {
            assert(k / 10 >= 10);
            assert((k / 10) / 10 == k / 100);
            assert(k / 100 < 10);
            assert(decimal(k / 100) == seq![digit_char(k / 100)]);
            assert(decimal(k / 10) == decimal(k / 100).push(digit_char((k / 10) % 10)));
            assert(decimal(k) == decimal(k / 10).push(digit_char(k % 10)));
            assert(out@ =~= o + decimal(k));
        }
    } else if n >= 10 {
        let tens = digit_str(n / 10);
        let units = digit_str(n % 10);
        out.append(tens);
        out.append(units);
        proof {
            assert(decimal(k / 10) == seq![digit_char(k / 10)]);
            assert(decimal(k) == decimal(k / 10).push(digit_char(k % 10)));
            assert(out@ =~= o + decimal(k));
        }
    } else {
        out.append(digit_str(n));
    }
}

/// Appends the decimal writing of `n` to `out`.
pub fn append_decimal_u64(out: &mut String, n: u64)
    ensures
        final(out)@ == old(out)@ + decimal(n as nat),
    decreases n,
{
    let ghost o = out@;
    if n >= 10 {
        append_decimal_u64(out, n / 10);
    }
    out.append(digit_str((n % 10) as u8));
    proof {
        if n >= 10 {
            assert(out@ =~= o + decimal(n as nat));
        } else {
            assert(out@ =~= o + decimal(n as nat));
        }
    }
}

/// Appends the bracketed effect list to `out`.
fn append_effects(out: &mut String, sid_active: bool, drum_active: bool, sync_buzzer_active: bool)
    ensures
        final(out)@ == old(out)@ + effects_part(sid_active, drum_active, sync_buzzer_active),
{
    proof {
        reveal_strlit(" [");
        reveal_strlit("]");
        reveal_strlit("|");
        reveal_strlit("SID");
        reveal_strlit("DRUM");
        reveal_strlit("SYNC");
    }
    let ghost o = out@;
    if sid_active || drum_active || sync_buzzer_active {
        out.append(" [");
        let ghost a = out@;
        if sid_active {
            out.append("SID");
        }
        let ghost b = out@;
        assert(b =~= a + (if sid_active { seq!['S', 'I', 'D'] } else { Seq::<char>::empty() }));
        if drum_active {
            if sid_active {
                out.append("|");
            }
            out.append("DRUM");
        }
        let ghost c = out@;
        assert(c =~= b + (if drum_active {
            (if sid_active { seq!['|'] } else { Seq::<char>::empty() }) + seq!['D', 'R', 'U', 'M']
        } else {
            Seq::<char>::empty()
        }));
        if sync_buzzer_active {
            if sid_active || drum_active {
                out.append("|");
            }
            out.append("SYNC");
        }
        let ghost d = out@;
        assert(d =~= c + (if sync_buzzer_active {
            (if sid_active || drum_active { seq!['|'] } else { Seq::<char>::empty() }) + seq!['S', 'Y', 'N', 'C']
        } else {
            Seq::<char>::empty()
        }));
        out.append("]");
        assert(out@ =~= o + effects_part(sid_active, drum_active, sync_buzzer_active));
    } else {
        assert(out@ =~= o + effects_part(sid_active, drum_active, sync_buzzer_active));
    }
}

/// Creates the compact status line of a channel.
pub fn create_channel_status(
    tone_enabled: bool,
    noise_enabled: bool,
    amplitude: u8,
    envelope_enabled: bool,
    envelope_shape: &str,
    sid_active: bool,
    drum_active: bool,
    sync_buzzer_active: bool,
) -> (status: String)
    ensures
        status@ == channel_status(
            tone_enabled,
            noise_enabled,
            amplitude,
            envelope_enabled,
            envelope_shape@,
            sid_active,
            drum_active,
            sync_buzzer_active,
        ),
{
    proof {
        reveal_strlit("T");
        reveal_strlit("N");
        reveal_strlit("-");
        reveal_strlit(" E:");
        reveal_strlit(" A:");
        reveal_strlit(" ");
    }
    let mut status = String::new();
    if tone_enabled {
        status.append("T");
    } else {
        status.append("-");
    }
    if noise_enabled {
        status.append("N");
    } else {
        status.append("-");
    }
    if envelope_enabled {
        status.append(" E:");
    } else {
        status.append(" A:");
    }
    let ghost t = status@;
    assert(t =~= seq![if tone_enabled { 'T' } else { '-' }, if noise_enabled { 'N' } else { '-' }, ' ',
        if envelope_enabled { 'E' } else { 'A' }, ':']);
    append_decimal(&mut status, amplitude);
    let ghost head = status@;
    if envelope_enabled && !envelope_shape.is_empty() {
        status.append(" ");
        status.append(envelope_shape);
    }
    let ghost with_shape = status@;
    assert(with_shape =~= head + (if envelope_enabled && envelope_shape@.len() > 0 {
        seq![' '] + envelope_shape@
    } else {
        Seq::<char>::empty()
    }));
    append_effects(&mut status, sid_active, drum_active, sync_buzzer_active);
    status
}

} // verus!
