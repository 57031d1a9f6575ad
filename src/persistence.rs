//! The batched persistence buffer: telemetry samples accumulate in memory and
//! are taken out whole, one batch per flush tick.
//!
//! Taking a batch swaps the buffer for an empty one, so every appended row
//! lands in exactly one batch, in the order it was appended.

use vstd::prelude::*;
use crate::packets::car_telemetry::PacketCarTelemetry;
use crate::packets::header::PacketHeader;
use crate::wire::RawF32;

verus! {

/// One stored telemetry sample.
#[derive(Clone, Copy, PartialEq, Eq, Debug, Structural)]
pub struct TelemetryRow {
    /// The session the sample belongs to.
    pub session_uid: u64,
    /// The game's session time of the sample, in seconds.
    pub session_time: RawF32,
    pub throttle: RawF32,
    pub speed: u16,
}

/// The row that a telemetry sample with its header is stored as.
pub open spec fn row_of(h: PacketHeader, t: PacketCarTelemetry) -> TelemetryRow {
    TelemetryRow {
        session_uid: h.session_uid,
        session_time: h.session_time,
        throttle: t.throttle,
        speed: t.speed,
    }
}

impl TelemetryRow {
    /// The row for a telemetry sample, tagged with its session and time.
    pub fn from_sample(h: &PacketHeader, t: &PacketCarTelemetry) -> (r: TelemetryRow)
        ensures
            r == row_of(*h, *t),
    {
        TelemetryRow {
            session_uid: h.session_uid,
            session_time: h.session_time,
            throttle: t.throttle,
            speed: t.speed,
        }
    }
}

/// The batch that a flush takes from a buffer holding `rows`: none when it is
/// empty, else all of them.
pub open spec fn batch_of(rows: Seq<TelemetryRow>) -> Option<Seq<TelemetryRow>> {
    if rows.len() == 0 {
        None
    } else {
        Some(rows)
    }
}

/// Rows waiting for the next flush.
pub struct PersistenceBuffer {
    rows: Vec<TelemetryRow>,
}

impl View for PersistenceBuffer {
    type V = Seq<TelemetryRow>;

    closed spec fn view(&self) -> Seq<TelemetryRow> {
        self.rows@
    }
}

impl PersistenceBuffer {
    /// An empty buffer.
    pub fn new() -> (r: PersistenceBuffer)
        ensures
            r@ == Seq::<TelemetryRow>::empty(),
    {
        PersistenceBuffer { rows: Vec::new() }
    }

    /// How many rows wait.
    pub fn len(&self) -> (r: usize)
        ensures
            r == self@.len(),
    {
        self.rows.len()
    }

    /// Appends a row after those already waiting.
    pub fn append(&mut self, row: TelemetryRow)
        ensures
            final(self)@ == old(self)@.push(row),
    {
        self.rows.push(row);
    }

    /// Takes every waiting row as one batch and leaves the buffer empty; an
    /// empty buffer gives no batch.
    pub fn take_batch(&mut self) -> (r: Option<Vec<TelemetryRow>>)
        ensures
            final(self)@ == Seq::<TelemetryRow>::empty(),
            match r {
                None => batch_of(old(self)@) is None,
                Some(v) => batch_of(old(self)@) == Some(v@),
            },
    {
        if self.rows.len() == 0 {
            return None;
        }
        let mut batch: Vec<TelemetryRow> = Vec::new();
        std::mem::swap(&mut self.rows, &mut batch);
        Some(batch)
    }
}

/// Two rows appended to an empty buffer within one interval make up the
/// whole of the next batch, in order; a third appended after that flush is
/// not in it, and waits, alone, for the flush after.
pub proof fn lemma_batches_split_at_flush(a: TelemetryRow, b: TelemetryRow, c: TelemetryRow)
    ensures
        batch_of(Seq::empty().push(a).push(b)) == Some(seq![a, b]),
        Seq::<TelemetryRow>::empty().push(c) == seq![c],
        batch_of(Seq::empty().push(c)) == Some(seq![c]),
{
    assert(Seq::empty().push(a).push(b) =~= seq![a, b]);
    assert(Seq::<TelemetryRow>::empty().push(c) =~= seq![c]);
}

} // verus!
