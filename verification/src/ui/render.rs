//! The pieces of text and the measures that the screen is drawn from.

use super::theme::{Rgb, Theme};
use crate::text::{push_two_digits, zero_padded};
use crate::timer::{PomodoroTimer, TimerPhase, TimerState};
use vstd::prelude::*;
use vstd::std_specs::iter::IteratorSpec;
use vstd::utf8::encode_utf8;

verus! {

/// The number of bytes that a text takes in UTF-8.
pub open spec fn utf8_len(text: Seq<char>) -> nat {
    encode_utf8(text).len()
}

/// The number of bytes of a text.
fn byte_len(text: &str) -> (len: usize)
    ensures
        len == utf8_len(text@),
{
    text.as_bytes().len()
}

/// The sign that the header shows for a phase.
pub open spec fn phase_sign(phase: TimerPhase) -> Seq<char> {
    match phase {
        TimerPhase::Focus => "焦 点"@,
        TimerPhase::ShortBreak => "小休憩"@,
        TimerPhase::LongBreak => "長休憩"@,
    }
}

/// The caption that the header shows for a phase.
pub open spec fn phase_caption(phase: TimerPhase) -> Seq<char> {
    match phase {
        TimerPhase::Focus => "FOCUS"@,
        TimerPhase::ShortBreak => "SHORT BREAK"@,
        TimerPhase::LongBreak => "LONG BREAK"@,
    }
}

/// The sign and the caption of a phase.
pub fn phase_labels(phase: TimerPhase) -> (labels: (&'static str, &'static str))
    ensures
        labels.0@ == phase_sign(phase),
        labels.1@ == phase_caption(phase),
{
    match phase {
        TimerPhase::Focus => ("焦 点", "FOCUS"),
        TimerPhase::ShortBreak => ("小休憩", "SHORT BREAK"),
        TimerPhase::LongBreak => ("長休憩", "LONG BREAK"),
    }
}

/// The colour that a theme gives to a phase.
pub open spec fn phase_color(phase: TimerPhase, theme: &Theme) -> Rgb {
    match phase {
        TimerPhase::Focus => theme.focus_color,
        TimerPhase::ShortBreak => theme.short_break_color,
        TimerPhase::LongBreak => theme.long_break_color,
    }
}

pub fn get_phase_color(phase: TimerPhase, theme: &Theme) -> (color: Rgb)
    ensures
        color == phase_color(phase, theme),
{
    match phase {
        TimerPhase::Focus => theme.focus_color,
        TimerPhase::ShortBreak => theme.short_break_color,
        TimerPhase::LongBreak => theme.long_break_color,
    }
}

/// The colour of the countdown and of its bar: that of the phase while the
/// timer runs, that of a halted timer otherwise.
pub fn countdown_color(timer: &PomodoroTimer, theme: &Theme) -> (color: Rgb)
    ensures
        color == if timer.current_timer.state == TimerState::Running {
            phase_color(timer.current_timer.phase, theme)
        } else {
            theme.paused_color
        },
{
    if timer.is_running() {
        get_phase_color(timer.current_timer.phase, theme)
    } else {
        theme.paused_color
    }
}

/// The cycle as the header shows it: its number, counted from one, and the
/// number of focus intervals per long break, each on two digits at least.
pub open spec fn header_session_text(timer: &PomodoroTimer) -> Seq<char> {
    zero_padded((timer.cycle_count + 1) as nat, 2) + seq!['/'] + zero_padded(
        timer.cycles_before_long_break as nat,
        2,
    )
}

pub fn header_session(timer: &PomodoroTimer) -> (text: String)
    requires
        timer.cycle_count < u32::MAX,
    ensures
        text@ == header_session_text(timer),
{
    let mut text = String::new();
    push_two_digits(&mut text, (timer.cycle_count + 1) as u64);
    text.push('/');
    push_two_digits(&mut text, timer.cycles_before_long_break as u64);
    text
}

/// A count on two digits at least.
pub fn count_text(count: u32) -> (text: String)
    ensures
        text@ == zero_padded(count as nat, 2),
{
    let mut text = String::new();
    push_two_digits(&mut text, count as u64);
    text
}

/// The bytes that the fixed parts of the header take beside the rule: the
/// name of the program (8), the phase with its sign, its caption and the
/// five characters that frame them, the cycle text with the twelve
/// characters that frame it, and four more.
pub open spec fn header_used_width(phase: TimerPhase, session: Seq<char>) -> nat {
    8 + (5 + utf8_len(phase_sign(phase)) + utf8_len(phase_caption(phase))) + (12 + utf8_len(
        session,
    )) + 4
}

/// The length of the rule that fills the header line: what an area of the
/// given width has left beside the fixed parts, and nothing where they take
/// it all.
pub open spec fn separator_len(area_width: u16, phase: TimerPhase, session: Seq<char>) -> nat {
    if area_width > header_used_width(phase, session) {
        (area_width - header_used_width(phase, session)) as nat
    } else {
        0
    }
}

pub fn separator_width(area_width: u16, phase: TimerPhase, session: &str) -> (width: usize)
    ensures
        width == separator_len(area_width, phase, session@),
{
    let (sign, caption) = phase_labels(phase);
    let fixed: usize = 29;
    let used = fixed.saturating_add(byte_len(sign)).saturating_add(
        byte_len(caption),
    ).saturating_add(byte_len(session));
    (area_width as usize).saturating_sub(used)
}

/// The rule that fills the header line.
pub fn separator(area_width: u16, phase: TimerPhase, session: &str) -> (rule: String)
    ensures
        rule@ == repeated('─', separator_len(area_width, phase, session@)),
{
    let mut rule = String::new();
    push_repeated(&mut rule, '─', separator_width(area_width, phase, session));
    rule
}

/// The label of the start/pause key.
pub fn pause_label(running: bool) -> (label: &'static str)
    ensures
        label@ == if running {
            "静 [Pause]"@
        } else {
            "再開 [Start]"@
        },
{
    if running {
        "静 [Pause]"
    } else {
        "再開 [Start]"
    }
}

/// The same character `count` times.
pub open spec fn repeated(c: char, count: nat) -> Seq<char> {
    Seq::new(count, |i: int| c)
}

/// The length of the progress bar in an area of the given width, the knob
/// not counted: forty columns stay free.
pub open spec fn bar_width(area_width: u16) -> nat {
    if area_width > 40 {
        (area_width - 40) as nat
    } else {
        0
    }
}

/// The part of the bar that is filled at the given percentage, rounded down.
pub open spec fn bar_filled(area_width: u16, progress: u16) -> nat {
    bar_width(area_width) * (progress as nat) / 100
}

/// The progress bar: the filled part, the knob, and the part still open.
pub open spec fn progress_bar_text(area_width: u16, progress: u16) -> Seq<char> {
    let width = bar_width(area_width);
    let filled = bar_filled(area_width, progress);
    let open = if width > filled {
        (width - filled) as nat
    } else {
        0
    };
    repeated('━', filled) + seq!['◯'] + repeated('─', open)
}

fn push_repeated(out: &mut String, c: char, count: usize)
    ensures
        final(out)@ == old(out)@ + repeated(c, count as nat),
{
    let mut done: usize = 0;
    while done < count
        invariant
            done <= count,
            out@ == old(out)@ + repeated(c, done as nat),
        decreases count - done,
    {
        out.push(c);
        done = done + 1;
    }
}

pub fn progress_bar(area_width: u16, progress: u16) -> (bar: String)
    ensures
        bar@ == progress_bar_text(area_width, progress),
{
    let width: usize = (area_width as usize).saturating_sub(40);
    assert(width * (progress as usize) <= 0xffff * 0xffff) by (nonlinear_arith)
        requires
            width <= 0xffff,
            progress <= 0xffff,
    ;
    let filled: usize = (width * (progress as usize)) / 100;
    let mut bar = String::new();
    push_repeated(&mut bar, '━', filled);
    bar.push('◯');
    push_repeated(&mut bar, '─', width.saturating_sub(filled));
    bar
}

/// The full-width form of a digit or a colon; any other character as it is.
pub open spec fn fullwidth_char(c: char) -> char {
    if c == '0' {
        '０'
    } else if c == '1' {
        '１'
    } else if c == '2' {
        '２'
    } else if c == '3' {
        '３'
    } else if c == '4' {
        '４'
    } else if c == '5' {
        '５'
    } else if c == '6' {
        '６'
    } else if c == '7' {
        '７'
    } else if c == '8' {
        '８'
    } else if c == '9' {
        '９'
    } else if c == ':' {
        '：'
    } else {
        c
    }
}

/// A text with each digit and colon in its full-width form.
pub open spec fn fullwidth_text(text: Seq<char>) -> Seq<char> {
    Seq::new(text.len(), |i: int| fullwidth_char(text[i]))
}

fn to_fullwidth(c: char) -> (wide: char)
    ensures
        wide == fullwidth_char(c),
{
    match c {
        '0' => '０',
        '1' => '１',
        '2' => '２',
        '3' => '３',
        '4' => '４',
        '5' => '５',
        '6' => '６',
        '7' => '７',
        '8' => '８',
        '9' => '９',
        ':' => '：',
        _ => c,
    }
}

pub fn convert_to_fullwidth(s: &str) -> (wide: String)
    ensures
        wide@ == fullwidth_text(s@),
{
    let mut wide = String::new();
    let mut rest = s.chars();
    let ghost mut done: int = 0;
    loop
        invariant
            0 <= done <= s@.len(),
            rest.remaining() == s@.skip(done),
            wide@ == fullwidth_text(s@.take(done)),
        ensures
            done == s@.len(),
            wide@ == fullwidth_text(s@.take(done)),
        decreases s@.len() - done,
    {
        match rest.next() {
            Some(c) => {
                wide.push(to_fullwidth(c));
                proof {
                    done = done + 1;
                }
            },
            None => {
                break ;
            },
        }
    }
    wide
}

} // verus!
