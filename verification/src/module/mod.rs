use vstd::prelude::*;

use crate::common::{SubjectData, SubjectId};
use crate::event::{EventMeta, GameEvent};
use crate::raw_event::RawEventType;
use crate::subjectmap::SubjectMap;

pub mod chat;
pub mod classstats;
pub mod healspread;
pub mod lobbysettings;
pub mod medicstats;

verus! {

/// A pluggable handler stack, one instance per match. `PerSubjectData` is the
/// state cell kept for every subject, seeded by `fresh` on first observation;
/// the driver consults `does_handle` before decoding a typed event, hands each
/// decoded event to `handle`, and closes the books with the two finishers.
/// These methods carry no contracts, so what the generic driver proves about
/// its output is structural (player keying, canonical order); the default
/// stack's `parse` pins its whole output instead.
pub trait EventHandler: Sized {
    type GlobalOutput;

    type PerSubjectData;

    type PerSubjectOutput;

    /// Whether the stack wants events with this tag.
    fn does_handle(ty: RawEventType) -> bool;

    /// A fresh per-subject state cell.
    fn fresh(&self) -> Self::PerSubjectData;

    /// Consumes one decoded event.
    fn handle(
        &mut self,
        meta: &EventMeta,
        subject: SubjectId,
        subject_data: &mut Self::PerSubjectData,
        event: &GameEvent,
    );

    /// The whole-match output, computed once over the observed subjects.
    fn finish_global(self, subjects: &SubjectMap<()>) -> Self::GlobalOutput;

    /// One player's output.
    fn finish_per_subject(
        &mut self,
        subject: &SubjectData,
        data: Self::PerSubjectData,
    ) -> Self::PerSubjectOutput;
}

} // verus!
