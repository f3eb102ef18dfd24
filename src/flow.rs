use vstd::prelude::*;

verus! {

/// Where an index run stands.
#[derive(Debug, Clone, Copy, PartialEq, Eq, Structural)]
pub enum Phase {
    Idle,
    Discovering,
    /// Waiting for the embedding of the current file.
    Embedding,
    /// Waiting for the store to acknowledge the current file's point.
    Upserting,
    Done,
}

/// What the caller reports back after performing an action.
#[derive(Debug, Clone, Copy, PartialEq, Eq, Structural)]
pub enum IndexEvent {
    Start,
    /// Discovery found this many files.
    Discovered(usize),
    /// The current file was embedded into a vector of this length.
    Embedded(usize),
    EmbedFailed,
    Upserted,
    UpsertFailed,
    Cancelled,
}

/// What the caller performs next.
#[derive(Debug, Clone, Copy, PartialEq, Eq, Structural)]
pub enum IndexAction {
    Discover,
    /// Embed the file with this position in the discovered list.
    Embed(usize),
    /// Write the point of the file with this position.
    Upsert(usize),
    Finish,
    /// The event does not fit the phase: nothing to do.
    Wait,
}

/// The decisions of one index run: files are embedded and written one after the other; a
/// file that fails to embed, embeds to a vector of the wrong length, or fails to be written
/// is counted as skipped and the run goes on with the next one.
#[derive(Debug, Clone, Copy, PartialEq, Eq, Structural)]
pub struct IndexRun {
    pub phase: Phase,
    /// The length the collection's vectors must have.
    pub dimension: usize,
    /// How many files discovery found.
    pub total: usize,
    /// The position of the current file; the files before it are finished.
    pub file: usize,
    pub stored: usize,
    pub skipped: usize,
}

impl IndexRun {
    /// Every finished file was either stored or skipped, and a current file exists while
    /// one is being embedded or written.
    pub open spec fn wf(&self) -> bool {
        &&& self.file <= self.total
        &&& self.stored + self.skipped == self.file
        &&& (self.phase == Phase::Embedding || self.phase == Phase::Upserting) ==> self.file < self.total
        &&& (self.phase == Phase::Idle || self.phase == Phase::Discovering) ==> self.file == 0 && self.total == 0
    }

    pub fn new(dimension: usize) -> (r: IndexRun)
        ensures
            r.wf(),
            r == (IndexRun { phase: Phase::Idle, dimension, total: 0, file: 0, stored: 0, skipped: 0 }),
    {
        IndexRun { phase: Phase::Idle, dimension, total: 0, file: 0, stored: 0, skipped: 0 }
    }

    /// The run after the current file is finished: on to the next file, or done after the last.
    pub open spec fn advanced(self, stored: bool) -> (IndexRun, IndexAction) {
        let s = if stored { (self.stored + 1) as usize } else { self.stored };
        let k = if stored { self.skipped } else { (self.skipped + 1) as usize };
        let next = (self.file + 1) as usize;
        if next == self.total {
            (IndexRun { phase: Phase::Done, file: next, stored: s, skipped: k, ..self }, IndexAction::Finish)
        } else {
            (IndexRun { phase: Phase::Embedding, file: next, stored: s, skipped: k, ..self }, IndexAction::Embed(next))
        }
    }

    fn advance(self, stored: bool) -> (r: (IndexRun, IndexAction))
        requires
            self.wf(),
            self.phase == Phase::Embedding || self.phase == Phase::Upserting,
        ensures
            r == self.advanced(stored),
            r.0.wf(),
    {
        let next = self.file + 1;
        let mut run = self;
        run.file = next;
        if stored {
            run.stored = self.stored + 1;
        } else {
            run.skipped = self.skipped + 1;
        }
        if next == self.total {
            run.phase = Phase::Done;
            (run, IndexAction::Finish)
        } else {
            run.phase = Phase::Embedding;
            (run, IndexAction::Embed(next))
        }
    }

    /// The next state and action after `event`.
    pub fn step(self, event: IndexEvent) -> (r: (IndexRun, IndexAction))
        requires
            self.wf(),
        ensures
            r.0.wf(),
            r.0.dimension == self.dimension,
            event == IndexEvent::Cancelled ==> r == (IndexRun { phase: Phase::Done, ..self }, IndexAction::Finish),
            self.phase == Phase::Idle && event == IndexEvent::Start
                ==> r == (IndexRun { phase: Phase::Discovering, ..self }, IndexAction::Discover),
            self.phase == Phase::Discovering ==> match event {
                IndexEvent::Discovered(n) => if n == 0 {
                    r == (IndexRun { phase: Phase::Done, ..self }, IndexAction::Finish)
                } else {
                    r == (IndexRun { phase: Phase::Embedding, total: n, ..self }, IndexAction::Embed(0))
                },
                _ => true,
            },
            self.phase == Phase::Embedding ==> match event {
                IndexEvent::Embedded(d) => if d == self.dimension {
                    r == (IndexRun { phase: Phase::Upserting, ..self }, IndexAction::Upsert(self.file))
                } else {
                    r == self.advanced(false)
                },
                IndexEvent::EmbedFailed => r == self.advanced(false),
                _ => true,
            },
            self.phase == Phase::Upserting ==> match event {
                IndexEvent::Upserted => r == self.advanced(true),
                IndexEvent::UpsertFailed => r == self.advanced(false),
                _ => true,
            },
            r.1 matches IndexAction::Upsert(i) ==> i == self.file && self.phase == Phase::Embedding
                && event == IndexEvent::Embedded(self.dimension),
            r.1 == IndexAction::Wait ==> r.0 == self,
    {
        match (self.phase, event) {
            (_, IndexEvent::Cancelled) => (IndexRun { phase: Phase::Done, ..self }, IndexAction::Finish),
            (Phase::Idle, IndexEvent::Start) => (IndexRun { phase: Phase::Discovering, ..self }, IndexAction::Discover),
            (Phase::Discovering, IndexEvent::Discovered(n)) => {
                if n == 0 {
                    (IndexRun { phase: Phase::Done, ..self }, IndexAction::Finish)
                } else {
                    (IndexRun { phase: Phase::Embedding, total: n, ..self }, IndexAction::Embed(0))
                }
            },
            (Phase::Embedding, IndexEvent::Embedded(d)) => {
                if d == self.dimension {
                    (IndexRun { phase: Phase::Upserting, ..self }, IndexAction::Upsert(self.file))
                } else {
                    self.advance(false)
                }
            },
            (Phase::Embedding, IndexEvent::EmbedFailed) => self.advance(false),
            (Phase::Upserting, IndexEvent::Upserted) => self.advance(true),
            (Phase::Upserting, IndexEvent::UpsertFailed) => self.advance(false),
            _ => (self, IndexAction::Wait),
        }
    }
}

} // verus!
