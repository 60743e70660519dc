//! The timing state machine: press/release edges classify into dot and dash
//! symbols, idle gaps resolve accumulated symbols into characters and word
//! spaces, and an overflowed symbol buffer is discarded with a diagnostic.
//!
//! The machine is advanced one poll cycle at a time by [`DecoderState::poll`],
//! which takes the sampled button level and the clock reading for that cycle
//! and returns what the cycle emitted.  The whole transition is mirrored by
//! the spec function [`spec_poll`], so every behaviour of the machine can be
//! stated and proved over plain mathematical state snapshots.

use vstd::prelude::*;
use crate::decoder::{DOT, DASH, UNSET, PATTERN_SLOTS, spec_decode, match_character};

verus! {

/// Press durations below this many milliseconds classify as dots, all
/// others as dashes.
pub const DOT_DASH_THRESHOLD_MS: u64 = 250;

/// An idle gap of at least this many milliseconds (and below
/// [`CHAR_GAP_MAX_MS`]) completes the character being entered.
pub const CHAR_GAP_MIN_MS: u64 = 1000;

/// Upper bound (exclusive) of the character-gap window.
pub const CHAR_GAP_MAX_MS: u64 = 1500;

/// An idle gap of at least this many milliseconds is a word boundary and
/// emits a single space.
pub const WORD_GAP_MS: u64 = 2500;

/// The symbol a press of `duration` milliseconds classifies as.
pub open spec fn spec_classify(duration: int) -> u8 {
    if duration < DOT_DASH_THRESHOLD_MS { DOT } else { DASH }
}

/// Classify a press duration in milliseconds into a dot or a dash.
pub fn classify_press(duration: u64) -> (s: u8)
    ensures
        s == spec_classify(duration as int),
{
    if duration < DOT_DASH_THRESHOLD_MS {
        DOT
    } else {
        DASH
    }
}

/// Mathematical snapshot of the decoder state: what [`DecoderState`] looks
/// like in contracts.
#[verifier::ext_equal]
pub struct StateView {
    /// Whether the button is currently held.
    pub held: bool,
    /// Clock reading at the start of the current press.
    pub press_start: u64,
    /// Clock reading at the last release: the idle gap is measured from here.
    pub gap_start: u64,
    /// Whether a word space was already emitted for the current idle gap.
    pub waiting: bool,
    /// The six symbol slots, filled from index 0, unset slots zero.
    pub pattern: Seq<u8>,
    /// How many slots are filled.
    pub count: nat,
}

/// The all-unset pattern.
pub open spec fn cleared_pattern() -> Seq<u8> {
    seq![0u8, 0, 0, 0, 0, 0]
}

/// Well-formedness of a state snapshot: the pattern has exactly six slots,
/// the filled slots are contiguous from index 0 and hold dots or dashes,
/// and every slot past the count is unset.
pub open spec fn state_inv(s: StateView) -> bool {
    &&& s.count <= PATTERN_SLOTS
    &&& s.pattern.len() == PATTERN_SLOTS
    &&& (forall|i: int| 0 <= i < s.count ==> s.pattern[i] == DOT || s.pattern[i] == DASH)
    &&& (forall|i: int| s.count <= i < PATTERN_SLOTS ==> s.pattern[i] == UNSET)
}

/// The state the decoder starts in: idle, nothing buffered.
pub open spec fn initial_state() -> StateView {
    StateView {
        held: false,
        press_start: 0,
        gap_start: 0,
        waiting: false,
        pattern: cleared_pattern(),
        count: 0,
    }
}

/// What one poll cycle emitted, in the order the cycle produces it: first a
/// possible overflow diagnostic, then a possible decoded character, then a
/// possible word space.  `led` is the indicator level for the cycle: high
/// exactly while the button is held.
#[derive(Clone, Copy, Debug, PartialEq, Eq)]
pub struct PollOutput {
    /// The buffer overflowed: the diagnostic line was emitted and the
    /// in-progress character discarded.
    pub overflow: bool,
    /// A completed character, decoded and emitted this cycle.
    pub decoded: Option<char>,
    /// A word space was emitted this cycle.
    pub space: bool,
    /// Indicator level after this cycle.
    pub led: bool,
}

/// Overflow policy, checked first each cycle: a buffer holding more symbols
/// than a pattern has slots is discarded and the diagnostic emitted.
pub open spec fn spec_overflow_step(s: StateView) -> (StateView, bool) {
    if s.count > 5 {
        (StateView { pattern: cleared_pattern(), count: 0, ..s }, true)
    } else {
        (s, false)
    }
}

/// Edge handling for one cycle.  A new press records its start and clears
/// the waiting flag; a release classifies the press duration, appends the
/// symbol (the buffer cannot be full here, the overflow step ran first),
/// and restarts the idle gap.  The returned boolean is the indicator level:
/// high exactly while the button is down.
pub open spec fn spec_edge_step(s: StateView, pressed: bool, now: u64) -> (StateView, bool) {
    if pressed {
        if !s.held {
            (StateView { held: true, press_start: now, waiting: false, ..s }, true)
        } else {
            (s, true)
        }
    } else {
        if s.held {
            let sym = spec_classify(now - s.press_start);
            let appended = if s.count < PATTERN_SLOTS {
                StateView {
                    pattern: s.pattern.update(s.count as int, sym),
                    count: (s.count + 1) as nat,
                    ..s
                }
            } else {
                s
            };
            (StateView { held: false, gap_start: now, ..appended }, false)
        } else {
            (s, false)
        }
    }
}

/// Gap evaluation for one cycle, run only while idle and not yet waiting.
/// An idle time inside the character-gap window with a non-empty buffer
/// decodes the (already zero-padded) pattern and resets the buffer; an idle
/// time at or past the word-gap threshold emits a single space and sets the
/// waiting flag.  The character-gap check comes first, as in the poll loop.
pub open spec fn spec_gap_step(s: StateView, now: u64) -> (StateView, Option<char>, bool) {
    if s.held || s.waiting {
        (s, None, false)
    } else {
        let elapsed = now - s.gap_start;
        let decoded = if CHAR_GAP_MIN_MS <= elapsed < CHAR_GAP_MAX_MS && s.count > 0 {
            Some(spec_decode(s.pattern))
        } else {
            None
        };
        let s1 = if decoded is Some {
            StateView { pattern: cleared_pattern(), count: 0, ..s }
        } else {
            s
        };
        if elapsed >= WORD_GAP_MS {
            (StateView { waiting: true, ..s1 }, decoded, true)
        } else {
            (s1, decoded, false)
        }
    }
}

/// One whole poll cycle: overflow check, then edge handling, then gap
/// evaluation, exactly in the loop's order.
pub open spec fn spec_poll(s: StateView, pressed: bool, now: u64) -> (StateView, PollOutput) {
    let (s1, overflow) = spec_overflow_step(s);
    let (s2, led) = spec_edge_step(s1, pressed, now);
    let (s3, decoded, space) = spec_gap_step(s2, now);
    (s3, PollOutput { overflow: overflow, decoded: decoded, space: space, led: led })
}

/// A poll cycle preserves the state invariant, whatever the input level
/// and clock reading.
pub proof fn lemma_poll_preserves_inv(s: StateView, pressed: bool, now: u64)
    requires
        state_inv(s),
    ensures
        state_inv(spec_poll(s, pressed, now).0),
{
}

/// Once the buffer holds more symbols than a pattern has slots and no
/// character gap resolved it, the next poll cycle emits the overflow
/// diagnostic, empties the buffer, and decodes nothing.
pub proof fn lemma_overflow_resets(s: StateView, pressed: bool, now: u64)
    requires
        state_inv(s),
        s.count > 5,
        !s.held,
    ensures
        spec_poll(s, pressed, now).1.overflow,
        spec_poll(s, pressed, now).0.count == 0,
        spec_poll(s, pressed, now).1.decoded is None,
{
}

/// A character gap decodes exactly once.  An idle poll inside the
/// character-gap window with a non-empty buffer emits the decoded pattern
/// and resets the buffer; after that, re-entering the gap evaluation
/// without a new press decodes nothing more, whatever the clock then reads.
pub proof fn lemma_char_gap_decodes_once(s: StateView, now1: u64, now2: u64)
    requires
        state_inv(s),
        !s.held,
        !s.waiting,
        0 < s.count <= 5,
        now1 >= s.gap_start,
        CHAR_GAP_MIN_MS <= now1 - s.gap_start < CHAR_GAP_MAX_MS,
    ensures
        spec_poll(s, false, now1).1.decoded == Some(spec_decode(s.pattern)),
        spec_poll(s, false, now1).0.count == 0,
        spec_poll(spec_poll(s, false, now1).0, false, now2).1.decoded is None,
{
}

/// A word gap emits exactly one space.  An idle poll at or past the
/// word-gap threshold emits a space and sets the waiting flag; after that,
/// a further idle poll emits no space, whatever the clock then reads.
pub proof fn lemma_word_gap_spaces_once(s: StateView, now1: u64, now2: u64)
    requires
        state_inv(s),
        !s.held,
        !s.waiting,
        s.count <= 5,
        now1 >= s.gap_start,
        now1 - s.gap_start >= WORD_GAP_MS,
    ensures
        spec_poll(s, false, now1).1.space,
        spec_poll(s, false, now1).0.waiting,
        !spec_poll(spec_poll(s, false, now1).0, false, now2).1.space,
{
}

/// While the waiting flag is set and the button stays up, a poll cycle
/// emits nothing at all and leaves the state unchanged.
pub proof fn lemma_waiting_suppresses(s: StateView, now: u64)
    requires
        s.waiting,
        !s.held,
        s.count <= 5,
    ensures
        spec_poll(s, false, now).0 == s,
        !spec_poll(s, false, now).1.space,
        spec_poll(s, false, now).1.decoded is None,
        !spec_poll(s, false, now).1.overflow,
{
}

/// A new press clears the waiting flag, so word-space emission is re-armed
/// by the next press, and records the press start.
pub proof fn lemma_press_rearms(s: StateView, now: u64)
    requires
        !s.held,
        s.count <= 5,
    ensures
        !spec_poll(s, true, now).0.waiting,
        spec_poll(s, true, now).0.held,
        spec_poll(s, true, now).0.press_start == now,
{
}

/// The decoder state: everything the poll cycle reads and writes between
/// cycles.  Created once, advanced by [`DecoderState::poll`].
pub struct DecoderState {
    held: bool,
    press_start: u64,
    gap_start: u64,
    waiting: bool,
    slots: [u8; 6],
    count: usize,
}

impl View for DecoderState {
    type V = StateView;

    closed spec fn view(&self) -> StateView {
        StateView {
            held: self.held,
            press_start: self.press_start,
            gap_start: self.gap_start,
            waiting: self.waiting,
            pattern: self.slots@,
            count: self.count as nat,
        }
    }
}

/// A fresh all-unset slot array.
fn zeroed_slots() -> (a: [u8; 6])
    ensures
        a@ == cleared_pattern(),
{
    let a: [u8; 6] = [0, 0, 0, 0, 0, 0];
    proof {
        assert(a@ =~= cleared_pattern());
    }
    a
}

impl DecoderState {
    /// Well-formedness: the view satisfies the state invariant.
    pub open spec fn wf(&self) -> bool {
        state_inv(self@)
    }

    /// A decoder in the initial state: idle, nothing buffered.
    pub fn new() -> (s: DecoderState)
        ensures
            s.wf(),
            s@ == initial_state(),
    {
        let s = DecoderState {
            held: false,
            press_start: 0,
            gap_start: 0,
            waiting: false,
            slots: zeroed_slots(),
            count: 0,
        };
        proof {
            assert(s@ =~= initial_state());
        }
        s
    }

    /// Overflow policy, run first each cycle: discard an over-full buffer
    /// and report that the diagnostic is owed.
    fn check_overflow(&mut self) -> (overflow: bool)
        requires
            old(self).wf(),
        ensures
            final(self).wf(),
            final(self)@.count <= 5,
            final(self)@ == spec_overflow_step(old(self)@).0,
            overflow == spec_overflow_step(old(self)@).1,
    {
        if self.count > 5 {
            self.slots = zeroed_slots();
            self.count = 0;
            proof {
                assert(self@ =~= spec_overflow_step(old(self)@).0);
            }
            true
        } else {
            false
        }
    }

    /// Edge handling: record a new press, or classify a finished one and
    /// append its symbol.  Returns the indicator level for the cycle.
    fn handle_edge(&mut self, pressed: bool, now: u64) -> (led: bool)
        requires
            old(self).wf(),
            old(self)@.count <= 5,
            now >= old(self)@.press_start,
        ensures
            final(self).wf(),
            final(self)@ == spec_edge_step(old(self)@, pressed, now).0,
            led == spec_edge_step(old(self)@, pressed, now).1,
    {
        if pressed {
            if !self.held {
                self.waiting = false;
                self.held = true;
                self.press_start = now;
            }
            proof {
                assert(self@ =~= spec_edge_step(old(self)@, pressed, now).0);
            }
            true
        } else {
            if self.held {
                self.held = false;
                let sym = classify_press(now - self.press_start);
                if self.count < PATTERN_SLOTS {
                    self.slots[self.count] = sym;
                    self.count = self.count + 1;
                }
                self.gap_start = now;
            }
            proof {
                assert(self@ =~= spec_edge_step(old(self)@, pressed, now).0);
            }
            false
        }
    }

    /// Gap evaluation: while idle and not waiting, resolve a character gap
    /// (decode and reset the buffer) or a word gap (emit one space and set
    /// the waiting flag).  Returns the decoded character and whether a
    /// space was emitted.
    fn handle_gap(&mut self, now: u64) -> (r: (Option<char>, bool))
        requires
            old(self).wf(),
            now >= old(self)@.gap_start,
        ensures
            final(self).wf(),
            final(self)@ == spec_gap_step(old(self)@, now).0,
            r.0 == spec_gap_step(old(self)@, now).1,
            r.1 == spec_gap_step(old(self)@, now).2,
    {
        if self.held || self.waiting {
            return (None, false);
        }
        let elapsed = now - self.gap_start;
        let mut decoded: Option<char> = None;
        if CHAR_GAP_MIN_MS <= elapsed && elapsed < CHAR_GAP_MAX_MS && self.count > 0 {
            decoded = Some(match_character(&self.slots));
            self.slots = zeroed_slots();
            self.count = 0;
        }
        let mut space = false;
        if elapsed >= WORD_GAP_MS {
            space = true;
            self.waiting = true;
        }
        proof {
            assert(self@ =~= spec_gap_step(old(self)@, now).0);
        }
        (decoded, space)
    }

    /// Advance the decoder by one poll cycle, from the sampled button level
    /// and the clock reading for this cycle.  The returned outputs are what
    /// the cycle emitted, in emission order.  `now` must not lie before the
    /// recorded press and gap start times; both were earlier readings of
    /// the same monotonic clock, so any monotonic caller satisfies this.
    pub fn poll(&mut self, pressed: bool, now: u64) -> (out: PollOutput)
        requires
            old(self).wf(),
            now >= old(self)@.press_start,
            now >= old(self)@.gap_start,
        ensures
            final(self).wf(),
            final(self)@ == spec_poll(old(self)@, pressed, now).0,
            out == spec_poll(old(self)@, pressed, now).1,
    {
        let overflow = self.check_overflow();
        let led = self.handle_edge(pressed, now);
        let (decoded, space) = self.handle_gap(now);
        PollOutput { overflow, decoded, space, led }
    }

    /// How many symbol slots are currently filled.
    pub fn symbol_count(&self) -> (n: usize)
        ensures
            n as nat == self@.count,
    {
        self.count
    }

    /// Whether the button is currently recorded as held.
    pub fn is_held(&self) -> (b: bool)
        ensures
            b == self@.held,
    {
        self.held
    }

    /// Whether a word space was already emitted for the current idle gap.
    pub fn is_waiting(&self) -> (b: bool)
        ensures
            b == self@.waiting,
    {
        self.waiting
    }

    /// Clock reading recorded at the start of the current press.
    pub fn press_start_time(&self) -> (t: u64)
        ensures
            t == self@.press_start,
    {
        self.press_start
    }

    /// Clock reading recorded at the last release.
    pub fn gap_start_time(&self) -> (t: u64)
        ensures
            t == self@.gap_start,
    {
        self.gap_start
    }
}

} // verus!
