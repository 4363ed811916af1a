//! The bidirectional single-data line, simulated from a recording.
//!
//! A line is in exactly one of two roles at any instant: input or
//! output. The two roles are two distinct types, and every role switch
//! consumes the line in its current role and produces it in the other,
//! so that driving a line that is being read — or sampling a line that
//! is being driven — cannot be written at all.
//!
//! The simulated line replays a finite recording of logic levels, one
//! entry per sample, and settles at a fixed default level once the
//! recording is exhausted; each line owns its own read cursor. Sampling
//! past the end of the recording therefore models a line that has
//! stopped toggling.

use vstd::prelude::*;

verus! {

/// Replayed state shared by both line roles: the recorded samples, the
/// read cursor, and the level the line holds once the recording ends.
struct Recording {
    levels: Vec<bool>,
    cursor: usize,
    default_level: bool,
}

/// The line configured for input: it can be sampled, not driven.
pub struct InputLine {
    rec: Recording,
}

/// The line configured for output: it can be driven, not sampled.
pub struct OutputLine {
    rec: Recording,
    level: bool,
}

impl InputLine {
    /// The recorded samples.
    pub closed spec fn levels(self) -> Seq<bool> {
        self.rec.levels@
    }

    /// How many samples have been consumed.
    pub closed spec fn cursor(self) -> int {
        self.rec.cursor as int
    }

    /// The level the line settles at once the recording is exhausted.
    pub closed spec fn default_level(self) -> bool {
        self.rec.default_level
    }

    /// The cursor never passes the end, and the recording is short
    /// enough that iteration counts over it cannot overflow.
    pub open spec fn wf(self) -> bool {
        0 <= self.cursor() <= self.levels().len() && self.levels().len() <= 0xFFFF_FFFF
    }

    /// The level the `i`-th sample reads: the recording while it lasts,
    /// the default level afterwards.
    pub open spec fn level_at(self, i: int) -> bool {
        if i < self.levels().len() {
            self.levels()[i]
        } else {
            self.default_level()
        }
    }

    /// Every sample from the cursor onwards is exhausted.
    pub open spec fn exhausted(self) -> bool {
        self.cursor() >= self.levels().len()
    }

    /// The line reads `lv` now and forever: it will never toggle again.
    pub open spec fn stuck(self, lv: bool) -> bool {
        self.default_level() == lv && forall|i: int|
            self.cursor() <= i < self.levels().len() ==> self.levels()[i] == lv
    }

    /// Reads the current logic level and advances the replay.
    pub fn sample(&mut self) -> (r: bool)
        requires
            old(self).wf(),
        ensures
            final(self).wf(),
            r == old(self).level_at(old(self).cursor()),
            final(self).levels() == old(self).levels(),
            final(self).default_level() == old(self).default_level(),
            final(self).cursor() == if old(self).exhausted() {
                old(self).cursor()
            } else {
                old(self).cursor() + 1
            },
    {
        if self.rec.cursor < self.rec.levels.len() {
            let b = self.rec.levels[self.rec.cursor];
            self.rec.cursor = self.rec.cursor + 1;
            b
        } else {
            self.rec.default_level
        }
    }

    /// Whether the recording has been consumed, so that the line will
    /// hold its default level forever.
    pub fn is_exhausted(&self) -> (r: bool)
        ensures
            r == self.exhausted(),
    {
        self.rec.cursor >= self.rec.levels.len()
    }

    /// The level an exhausted line keeps reporting.
    pub fn default_level_is(&self) -> (r: bool)
        ensures
            r == self.default_level(),
    {
        self.rec.default_level
    }

    /// Reconfigures the line for output, driving `level` at once. The
    /// replay state carries over unchanged.
    pub fn into_output(self, level: bool) -> (r: OutputLine)
        ensures
            r.levels() == self.levels(),
            r.cursor() == self.cursor(),
            r.default_level() == self.default_level(),
            r.level() == level,
            self.wf() ==> r.wf(),
    {
        OutputLine { rec: self.rec, level }
    }
}

impl OutputLine {
    /// The recorded samples.
    pub closed spec fn levels(self) -> Seq<bool> {
        self.rec.levels@
    }

    /// How many samples have been consumed.
    pub closed spec fn cursor(self) -> int {
        self.rec.cursor as int
    }

    /// The level the line settles at once the recording is exhausted.
    pub closed spec fn default_level(self) -> bool {
        self.rec.default_level
    }

    /// The level currently driven on the line.
    pub closed spec fn level(self) -> bool {
        self.level
    }

    /// The cursor never passes the end, and the recording is short
    /// enough that iteration counts over it cannot overflow.
    pub open spec fn wf(self) -> bool {
        0 <= self.cursor() <= self.levels().len() && self.levels().len() <= 0xFFFF_FFFF
    }

    /// Builds a line in output role, driven high (the idle state), that
    /// will replay `levels` once switched to input and read
    /// `default_level` forever after.
    pub fn new(levels: Vec<bool>, default_level: bool) -> (r: OutputLine)
        requires
            levels@.len() <= 0xFFFF_FFFF,
        ensures
            r.levels() == levels@,
            r.cursor() == 0,
            r.default_level() == default_level,
            r.level() == true,
            r.wf(),
    {
        OutputLine { rec: Recording { levels, cursor: 0, default_level }, level: true }
    }

    /// Drives the line to the requested level.
    pub fn set_level(&mut self, level: bool)
        ensures
            final(self).levels() == old(self).levels(),
            final(self).cursor() == old(self).cursor(),
            final(self).default_level() == old(self).default_level(),
            final(self).level() == level,
            old(self).wf() ==> final(self).wf(),
    {
        self.level = level;
    }

    /// Reconfigures the line for input. The replay state carries over
    /// unchanged.
    pub fn into_input(self) -> (r: InputLine)
        ensures
            r.levels() == self.levels(),
            r.cursor() == self.cursor(),
            r.default_level() == self.default_level(),
            self.wf() ==> r.wf(),
    {
        InputLine { rec: self.rec }
    }
}

} // verus!
