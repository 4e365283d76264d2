//! Timeline mode: the history as something to travel through.
//!
//! The playhead is not kept here. Scrubbing moves the very split that undo and redo move, so the
//! mode adds no second notion of where we are: leaving it scrubbed back is being undone by that
//! many steps, and painting there cuts the future off as painting after an undo does.
use crate::model::{DocCommand, ViewCommand};
use crate::panels::transform::Gesture;
use crate::preview::{Deformation, Paired};
use crate::text;
use vstd::prelude::*;

verus! {

/// Steps in a second at the ordinary speed.
pub const BASE_RATE: u32 = 8;

/// The shortest wait worth asking for, in milliseconds: about a frame. Past it the stride grows
/// instead, or the speed would stop answering.
pub const MIN_TICK_MS: u32 = 16;

/// The most marks that the track draws.
pub const MAX_TICKS: usize = 240;

/// The speeds on offer.
#[derive(Clone, Copy, PartialEq, Eq, Structural, Debug)]
pub enum Speed {
    Quarter,
    Half,
    Ordinary,
    Double,
    Quadruple,
}

impl Speed {
    /// The multiple of the ordinary speed, in hundredths.
    pub open spec fn multiple(self) -> nat {
        match self {
            Speed::Quarter => 25,
            Speed::Half => 50,
            Speed::Ordinary => 100,
            Speed::Double => 200,
            Speed::Quadruple => 400,
        }
    }

    /// The word on the chip.
    pub open spec fn words(self) -> Seq<char> {
        match self {
            Speed::Quarter => "\u{00BC}\u{00D7}"@,
            Speed::Half => "\u{00BD}\u{00D7}"@,
            Speed::Ordinary => "1\u{00D7}"@,
            Speed::Double => "2\u{00D7}"@,
            Speed::Quadruple => "4\u{00D7}"@,
        }
    }

    pub fn hundredths(self) -> (m: u32)
        ensures
            m == self.multiple(),
    {
        match self {
            Speed::Quarter => 25,
            Speed::Half => 50,
            Speed::Ordinary => 100,
            Speed::Double => 200,
            Speed::Quadruple => 400,
        }
    }

    pub fn label(self) -> (words: &'static str)
        ensures
            words@ == self.words(),
    {
        match self {
            Speed::Quarter => "\u{00BC}\u{00D7}",
            Speed::Half => "\u{00BD}\u{00D7}",
            Speed::Ordinary => "1\u{00D7}",
            Speed::Double => "2\u{00D7}",
            Speed::Quadruple => "4\u{00D7}",
        }
    }

    /// What the chip says when pointed at.
    pub fn title(self) -> (title: String)
        ensures
            title@ == "Play at "@ + self.words() + " speed"@,
    {
        let mut title: String = "Play at ".to_owned();
        title.append(self.label());
        title.append(" speed");
        title
    }
}

/// The nearest whole number to `a / b`, halves going up.
pub open spec fn nearest(a: nat, b: nat) -> nat {
    (2 * a + b) / (2 * b)
}

/// A speed in hundredths, which is never nothing.
pub open spec fn floored(speed: nat) -> nat {
    if speed == 0 {
        1
    } else {
        speed
    }
}

/// The wait between steps in milliseconds, and the steps crossed each time, at a speed in
/// hundredths of the ordinary one: a step each tick until a tick would be shorter than a frame,
/// and from there a pinned tick and as many steps as keep to the speed.
///
/// A step takes `100000 / (BASE_RATE * speed)` milliseconds.
pub open spec fn paced(speed: nat) -> (nat, nat) {
    let rate = BASE_RATE as nat * floored(speed);
    if 100000 >= MIN_TICK_MS * rate {
        (nearest(100000, rate), 1)
    } else {
        let stride = nearest(MIN_TICK_MS as nat * rate, 100000);
        (
            MIN_TICK_MS as nat,
            if stride < 1 {
                1
            } else {
                stride
            },
        )
    }
}

/// How long to wait between steps, and how many steps to cross each time.
pub fn pace(speed: u32) -> (pace: (u32, usize))
    ensures
        (pace.0 as nat, pace.1 as nat) == paced(speed as nat),
{
    let rate: u64 = 8 * if speed == 0 {
        1
    } else {
        speed as u64
    };
    if 100000 >= 16 * rate {
        assert((200000 + rate) / (2 * rate) <= 200000 + rate) by (nonlinear_arith)
            requires
                rate >= 1,
        ;
        (((200000 + rate) / (2 * rate)) as u32, 1)
    } else {
        let stride: u64 = (32 * rate + 100000) / 200000;
        assert(stride <= 0xffff_ffff);
        (
            MIN_TICK_MS,
            if stride < 1 {
                1
            } else {
                stride as usize
            },
        )
    }
}

/// Playing always moves on, and no tick is shorter than a frame.
pub proof fn law_playing_moves_on(speed: nat)
    ensures
        paced(speed).1 >= 1,
        paced(speed).0 >= MIN_TICK_MS,
{
    let rate = BASE_RATE as nat * floored(speed);
    if 100000 >= MIN_TICK_MS * rate {
        assert((200000 + rate) / (2 * rate) >= 16) by (nonlinear_arith)
            requires
                rate >= 1,
                100000 >= 16 * rate,
        ;
    }
}

/// Where the playhead stands and how far it can travel. A document with nothing behind it yet is
/// an *empty* history rather than one that cannot be walked, which is what a shared one is.
pub fn scrub_range(engine: Option<Option<(usize, usize)>>) -> (range: Option<(usize, usize)>)
    ensures
        range == match engine {
            Some(range) => range,
            None => Some((0usize, 0usize)),
        },
{
    match engine {
        Some(range) => range,
        None => Some((0, 0)),
    }
}

/// The transport: whether the mode is open, whether it is playing, and whether a playback is
/// running on its behalf.
#[derive(Clone, Copy, PartialEq, Eq, Structural, Debug)]
pub struct Transport {
    pub open: bool,
    pub playing: bool,
    pub task: bool,
}

/// What the play button comes to.
#[derive(Clone, Copy, PartialEq, Eq, Structural, Debug)]
pub enum Play {
    /// There is no history to walk.
    Nothing,
    /// Play from the playhead.
    FromHere,
    /// Play from the top, for the playhead is at the end: `Seek(0)` first.
    FromTheTop,
}

/// What a tick of the playback comes to.
#[derive(Clone, Copy, PartialEq, Eq, Structural, Debug)]
pub enum Tick {
    /// Playing has been stopped meanwhile, or there is nothing left to walk.
    End,
    /// Stand at this step, and wait for the next tick.
    Step(usize),
    /// Stand at this step, which is the last.
    Last(usize),
}

/// The step that a tick moves the playhead to.
pub open spec fn ahead(at: nat, total: nat, stride: nat) -> nat {
    if at + stride < total {
        at + stride
    } else {
        total
    }
}

impl Transport {
    /// Whether playback is running: painting is blocked while it is, and only then, since a
    /// stroke laid under a moving playhead would delete the rest of the piece.
    pub fn is_playing(&self) -> (playing: bool)
        ensures
            playing == self.playing,
    {
        self.playing
    }

    /// Stop playing, if it is; whether a running playback is to be cancelled.
    pub fn stop(&mut self) -> (cancel: bool)
        ensures
            *final(self) == (Transport { playing: false, task: false, ..*old(self) }),
            cancel == old(self).task,
    {
        self.playing = false;
        let cancel: bool = self.task;
        self.task = false;
        cancel
    }

    /// Enter or leave the mode. Leaving stops playing and leaves the playhead where it was put;
    /// entering puts a transform in hand down, which would commit against whatever the playhead
    /// landed on.
    pub fn set_open(&mut self, open: bool, transform: &mut Option<Gesture>) -> (drop: Option<
        ViewCommand,
    >)
        ensures
            *final(self) == (Transport { open, playing: false, task: false }),
            *final(transform) == if open {
                None
            } else {
                *old(transform)
            },
            drop == if open && *old(transform) is Some {
                Some(Deformation::shown(None))
            } else {
                None
            },
    {
        let _ = self.stop();
        self.open = open;
        if open && transform.is_some() {
            *transform = None;
            Some(Deformation::to_show(None))
        } else {
            None
        }
    }

    /// Play from the playhead, or from the top where it is at the end already, since that is
    /// the only reading of "play" that does anything there.
    pub fn play(&mut self, range: Option<(usize, usize)>) -> (play: Play)
        ensures
            play == match range {
                Some((at, total)) => if total == 0 {
                    Play::Nothing
                } else if at >= total {
                    Play::FromTheTop
                } else {
                    Play::FromHere
                },
                None => Play::Nothing,
            },
            final(self).open == old(self).open,
            final(self).playing == (play != Play::Nothing),
            final(self).task == (play != Play::Nothing),
    {
        let _ = self.stop();
        match range {
            None => Play::Nothing,
            Some((at, total)) => if total == 0 {
                Play::Nothing
            } else {
                self.playing = true;
                self.task = true;
                if at >= total {
                    Play::FromTheTop
                } else {
                    Play::FromHere
                }
            },
        }
    }

    /// A tick of the playback, with the range read afresh: the speed can change while it plays,
    /// and so can the history.
    pub fn tick(&mut self, range: Option<(usize, usize)>, stride: usize) -> (tick: Tick)
        ensures
            tick == match range {
                Some((at, total)) if old(self).playing => {
                    let to = ahead(at as nat, total as nat, stride as nat) as usize;
                    if to >= total {
                        Tick::Last(to)
                    } else {
                        Tick::Step(to)
                    }
                },
                _ => Tick::End,
            },
            *final(self) == (Transport { playing: tick is Step, ..*old(self) }),
    {
        if !self.playing {
            return Tick::End;
        }
        match range {
            None => {
                self.playing = false;
                Tick::End
            },
            Some((at, total)) => if at < total && stride < total - at {
                Tick::Step(at + stride)
            } else {
                self.playing = false;
                Tick::Last(total)
            },
        }
    }

    /// A hand on the scrubber takes the playhead off the transport rather than fighting it for
    /// it.
    pub fn scrub(&mut self, to: usize) -> (edit: DocCommand)
        ensures
            *final(self) == (Transport { playing: false, task: false, ..*old(self) }),
            edit == DocCommand::Seek(to),
    {
        let _ = self.stop();
        DocCommand::Seek(to)
    }
}

/// A tick moves the playhead forward, never past the end, and reaches the end: what is left
/// after it is at least a step less.
pub proof fn law_a_tick_moves_the_playhead_forward(at: nat, total: nat, stride: nat)
    requires
        at < total,
        stride >= 1,
    ensures
        at < ahead(at, total, stride) <= total,
        total - ahead(at, total, stride) <= total - at - 1,
        stride >= total - at ==> ahead(at, total, stride) == total,
{
}

// --- the track ---

/// How many steps there are to a mark.
pub open spec fn between_ticks(total: nat) -> nat {
    if total <= MAX_TICKS {
        1
    } else {
        (total + 239) / 240
    }
}

/// The steps that are marked: whole steps are skipped rather than the marks thinned, so that the
/// ones drawn stay evenly spaced.
pub open spec fn marked(total: nat) -> Seq<nat> {
    let step = between_ticks(total);
    Seq::new((total + step - 1) as nat / step, |i: int| (i * step) as nat)
}

/// However long the history is, the track draws no more marks than can be told apart, and each
/// is a step of it.
pub proof fn law_the_track_draws_only_marks(total: nat)
    ensures
        marked(total).len() <= 240,
        forall|i: int| 0 <= i < marked(total).len() ==> #[trigger] marked(total)[i] < total,
        total <= 240 ==> marked(total).len() == total,
{
    let step = between_ticks(total);
    let n = (total + step - 1) as nat / step;
    if total > 240 {
        assert(240 * step >= total);
        assert(n <= 240) by (nonlinear_arith)
            requires
                240 * step >= total,
                step >= 1,
                n == (total + step - 1) as nat / step,
        ;
    }
    assert forall|i: int| 0 <= i < n implies #[trigger] marked(total)[i] < total by {
        assert(i * step < total) by (nonlinear_arith)
            requires
                0 <= i < n,
                step >= 1,
                n == (total + step - 1) as nat / step,
        ;
        assert(i * step >= 0) by (nonlinear_arith)
            requires
                0 <= i,
                step >= 1,
        ;
    }
}

/// The steps that the track marks.
pub fn ticks(total: usize) -> (marks: Vec<usize>)
    ensures
        marks@.len() == marked(total as nat).len(),
        forall|i: int| 0 <= i < marks@.len() ==> #[trigger] marks@[i] == marked(total as nat)[i],
{
    let step: usize = if total <= 240 {
        1
    } else {
        (total - 1) / 240 + 1
    };
    let ghost n = marked(total as nat).len();
    assert(step == between_ticks(total as nat));
    let mut marks: Vec<usize> = Vec::new();
    let mut at: usize = 0;
    proof {
        assert(0 * step == 0) by (nonlinear_arith);
        assert(n == (total + step - 1) as nat / (step as nat));
    }
    while at < total
        invariant
            step >= 1,
            step == between_ticks(total as nat),
            n == marked(total as nat).len(),
            n == (total + step - 1) as nat / (step as nat),
            at == marks@.len() * step || at >= total,
            at < total ==> at == marks@.len() * step,
            at >= total ==> marks@.len() == n,
            forall|i: int|
                0 <= i < marks@.len() ==> #[trigger] marks@[i] == marked(total as nat)[i],
        decreases total - at,
    {
        let ghost k = marks@.len();
        proof {
            assert(k < n) by (nonlinear_arith)
                requires
                    k * step < total,
                    step >= 1,
                    n == (total + step - 1) as nat / (step as nat),
            ;
            assert((k + 1) * step == k * step + step) by (nonlinear_arith);
            if k * step + step >= total {
                assert(k + 1 == n) by (nonlinear_arith)
                    requires
                        k * step + step >= total,
                        k < n,
                        step >= 1,
                        n == (total + step - 1) as nat / (step as nat),
                ;
            }
        }
        marks.push(at);
        if total - at <= step {
            at = total;
        } else {
            at = at + step;
        }
    }
    proof {
        if total == 0 {
            assert(n == 0) by (nonlinear_arith)
                requires
                    step >= 1,
                    total == 0,
                    n == (total + step - 1) as nat / (step as nat),
            ;
        }
    }
    marks
}

/// A mark, lit behind the playhead.
pub fn tick_class(i: usize, at: usize) -> (class: &'static str)
    ensures
        class@ == if i < at {
            "timeline-tick past"@
        } else {
            "timeline-tick"@
        },
{
    if i < at {
        "timeline-tick past"
    } else {
        "timeline-tick"
    }
}

// --- the words ---

/// What the playhead is standing on: the step that it has just applied.
pub open spec fn standing_on(at: nat, labels: Seq<String>) -> Seq<char> {
    if at == 0 {
        "Empty canvas"@
    } else if at - 1 < labels.len() {
        labels[at - 1]@
    } else {
        "Step"@
    }
}

pub fn caption(at: usize, labels: &Vec<String>) -> (words: String)
    ensures
        words@ == standing_on(at as nat, labels@),
{
    if at == 0 {
        "Empty canvas".to_owned()
    } else if at - 1 < labels.len() {
        labels[at - 1].clone()
    } else {
        "Step".to_owned()
    }
}

/// The counter beside the track.
pub fn position(at: usize, total: usize) -> (words: String)
    ensures
        words@ == text::decimal(at as nat) + " / "@ + text::decimal(total as nat),
{
    let mut words: String = text::decimal_string(at as u128);
    words.append(" / ");
    words.append(text::decimal_string(total as u128).as_str());
    words
}

/// The counter says that there are steps ahead.
pub fn count_class(at: usize, total: usize) -> (class: &'static str)
    ensures
        class@ == if at < total {
            "timeline-count behind"@
        } else {
            "timeline-count"@
        },
{
    if at < total {
        "timeline-count behind"
    } else {
        "timeline-count"
    }
}

pub fn count_title(at: usize, total: usize) -> (title: &'static str)
    ensures
        title@ == if at < total {
            "Painting here discards the steps ahead, as painting after an undo does"@
        } else {
            "At the newest step"@
        },
{
    if at < total {
        "Painting here discards the steps ahead, as painting after an undo does"
    } else {
        "At the newest step"
    }
}

/// The mark on the play button, and what it says when pointed at.
pub fn play_button(playing: bool) -> (face: (&'static str, &'static str))
    ensures
        face.0@ == if playing {
            "\u{275A}\u{275A}"@
        } else {
            "\u{25B6}"@
        },
        face.1@ == if playing {
            "Pause"@
        } else {
            "Play the history from here"@
        },
{
    if playing {
        ("\u{275A}\u{275A}", "Pause")
    } else {
        ("\u{25B6}", "Play the history from here")
    }
}

/// Each speed is the one its chip says: a quarter, a half, one, two and four times the ordinary.
pub proof fn law_a_chip_says_its_speed(speed: Speed, hundredths: u32, words: &str)
    requires
        call_ensures(Speed::hundredths, (speed,), hundredths),
        call_ensures(Speed::label, (speed,), words),
    ensures
        words@.len() == 2 && words@[1] == '\u{00D7}',
        words@[0] == '\u{00BC}' <==> 4 * hundredths == 100,
        words@[0] == '\u{00BD}' <==> 2 * hundredths == 100,
        '0' <= words@[0] <= '9' ==> hundredths == 100 * (words@[0] as int - '0' as int),
        speed is Quarter <==> hundredths == 25,
        speed is Half <==> hundredths == 50,
        speed is Ordinary <==> hundredths == 100,
        speed is Double <==> hundredths == 200,
        speed is Quadruple <==> hundredths == 400,
{
    reveal_strlit("\u{00BC}\u{00D7}");
    reveal_strlit("\u{00BD}\u{00D7}");
    reveal_strlit("1\u{00D7}");
    reveal_strlit("2\u{00D7}");
    reveal_strlit("4\u{00D7}");
}

/// Playback keeps to eight steps a second times the speed, as nearly as whole milliseconds and
/// whole steps can. While a step lasts a frame or longer each tick is one step, and the wait is
/// that step's time to the nearest millisecond; from there on a tick is sixteen milliseconds and
/// crosses as many steps as come nearest to the speed. A speed of nothing is the slowest there is.
pub proof fn law_playback_keeps_to_the_speed(speed: u32, pace_of: (u32, usize))
    requires
        call_ensures(pace, (speed,), pace_of),
    ensures
        ({
            let rate = 8 * if speed == 0 {
                1int
            } else {
                speed as int
            };
            let (wait, steps) = (pace_of.0 as int, pace_of.1 as int);
            &&& 16 * rate <= 100000 ==> steps == 1 && 2 * (wait * rate) <= 200000 + rate && 200000
                - rate < 2 * (wait * rate)
            &&& 16 * rate > 100000 ==> wait == 16 && 2 * (steps * 100000) <= 32 * rate + 100000 && 32
                * rate - 100000 < 2 * (steps * 100000)
        }),
{
    let rate = 8 * if speed == 0 {
        1int
    } else {
        speed as int
    };
    if 16 * rate <= 100000 {
        lemma_nearest_is_within_a_half(100000, rate as nat);
    } else {
        lemma_nearest_is_within_a_half((16 * rate) as nat, 100000);
    }
}

proof fn lemma_nearest_is_within_a_half(a: nat, b: nat)
    requires
        b > 0,
    ensures
        2 * (nearest(a, b) * b) <= 2 * a + b,
        2 * a < 2 * (nearest(a, b) * b) + b,
{
    let q = nearest(a, b);
    assert((2 * b) * q <= 2 * a + b < (2 * b) * q + 2 * b) by (nonlinear_arith)
        requires
            b > 0,
            q == (2 * a + b) / (2 * b),
    ;
    assert((2 * b) * q == 2 * (q * b)) by (nonlinear_arith);
}

/// A tick goes on by its stride where there is room for it, and to the end where there is not,
/// where playing stops.
pub proof fn law_a_tick_goes_on_by_its_stride(at: nat, total: nat, stride: nat)
    ensures
        at + stride <= total ==> ahead(at, total, stride) == at + stride,
        at + stride >= total ==> ahead(at, total, stride) == total,
{
}

/// The marks are evenly spaced from the first step on, and leave no room for another behind the
/// last. They are every step where there are few enough, and otherwise no further apart than they
/// must be to be few enough.
pub proof fn law_the_marks_are_evenly_spaced(total: nat, marks: Vec<usize>, i: int)
    requires
        total <= usize::MAX,
        call_ensures(ticks, (total as usize,), marks),
        0 <= i < marks@.len(),
    ensures
        ({
            let step = between_ticks(total);
            &&& step >= 1
            &&& total <= 240 ==> step == 1
            &&& total > 240 ==> 240 * (step - 1) < total && total <= 240 * step
            &&& marks@[0] == 0
            &&& i + 1 < marks@.len() ==> marks@[i + 1] == marks@[i] + step
            &&& i + 1 == marks@.len() ==> marks@[i] < total <= marks@[i] + step
        }),
{
    let step = between_ticks(total);
    let n = (total + step - 1) as nat / step;
    assert(marks@.len() == n);
    law_the_track_draws_only_marks(total);
    assert(marks@[0] == marked(total)[0]);
    assert(0 * step == 0) by (nonlinear_arith);
    assert(marks@[i] == marked(total)[i]);
    assert(i * step >= 0) by (nonlinear_arith)
        requires
            i >= 0,
            step >= 1,
    ;
    assert((i + 1) * step == i * step + step) by (nonlinear_arith);
    if i + 1 < n {
        assert(marks@[i + 1] == marked(total)[i + 1]);
    } else {
        assert(total <= n * step) by (nonlinear_arith)
            requires
                step >= 1,
                n == (total + step - 1) as nat / step,
        ;
        assert(n * step == (i + 1) * step);
    }
}

/// The playhead stands on the step it has just applied: on nothing at the start, and behind the
/// `k`th step on that step's own label.
pub proof fn law_the_playhead_stands_on_the_step_it_has_applied(
    labels: &Vec<String>,
    k: usize,
    words: String,
    start: String,
)
    requires
        k < labels@.len(),
        k < usize::MAX,
        call_ensures(caption, ((k + 1) as usize, labels), words),
        call_ensures(caption, (0usize, labels), start),
    ensures
        words@ == labels@[k as int]@,
        start@ == "Empty canvas"@,
{
}

} // verus!
