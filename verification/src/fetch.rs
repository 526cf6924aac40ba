//! The marker-guarded fetch of one record.
//!
//! The controlling program writes a record file and then a ready marker
//! beside it. A fetch looks for the marker, reads the record, and removes the
//! marker, so that each record is taken once. The machine below makes those
//! decisions; the caller performs each action and answers with an event.
use vstd::prelude::*;

verus! {

/// Why a fetch produced no record.
#[derive(Clone, Copy, Debug, PartialEq, Eq, Structural)]
pub enum FetchError {
    /// The ready marker was not there: nothing new has been written.
    NotReady,
    /// The record file could not be opened or read.
    Unreadable,
    /// The record file did not hold a well-formed record.
    Malformed,
}

/// Where a fetch stands.
pub enum FetchStage<T> {
    AwaitingMarker,
    AwaitingRecord,
    AwaitingRemoval(T),
    Finished,
}

/// What the caller is to do next.
pub enum FetchAction<T> {
    /// Tell whether the file at this path exists.
    CheckMarker(String),
    /// Read and decode the record at this path.
    ReadRecord(String),
    /// Remove the file at this path.
    RemoveMarker(String),
    /// The fetch is over, with this result.
    Complete(Result<T, FetchError>),
    /// The marker could not be removed: the fetch cannot go on.
    Abort,
}

/// What came of the caller's last action.
pub enum FetchEvent<T> {
    MarkerChecked(bool),
    RecordRead(Result<T, FetchError>),
    MarkerRemoved(bool),
}

/// One fetch in progress.
pub struct Fetch<T> {
    pub marker_path: String,
    pub record_path: String,
    pub stage: FetchStage<T>,
}

/// The abstract form of an action: paths as character sequences.
pub enum FetchActionView<T> {
    CheckMarker(Seq<char>),
    ReadRecord(Seq<char>),
    RemoveMarker(Seq<char>),
    Complete(Result<T, FetchError>),
    Abort,
}

impl<T> View for FetchAction<T> {
    type V = FetchActionView<T>;

    open spec fn view(&self) -> FetchActionView<T> {
        match self {
            FetchAction::CheckMarker(p) => FetchActionView::CheckMarker(p@),
            FetchAction::ReadRecord(p) => FetchActionView::ReadRecord(p@),
            FetchAction::RemoveMarker(p) => FetchActionView::RemoveMarker(p@),
            FetchAction::Complete(r) => FetchActionView::Complete(*r),
            FetchAction::Abort => FetchActionView::Abort,
        }
    }
}

/// The event that the stage waits for.
pub open spec fn stage_accepts<T>(stage: FetchStage<T>, event: FetchEvent<T>) -> bool {
    match (stage, event) {
        (FetchStage::AwaitingMarker, FetchEvent::MarkerChecked(_)) => true,
        (FetchStage::AwaitingRecord, FetchEvent::RecordRead(_)) => true,
        (FetchStage::AwaitingRemoval(_), FetchEvent::MarkerRemoved(_)) => true,
        _ => false,
    }
}

/// The stage after an accepted event.
pub open spec fn next_stage<T>(event: FetchEvent<T>) -> FetchStage<T> {
    match event {
        FetchEvent::MarkerChecked(present) => if present {
            FetchStage::AwaitingRecord
        } else {
            FetchStage::Finished
        },
        FetchEvent::RecordRead(read) => match read {
            Ok(record) => FetchStage::AwaitingRemoval(record),
            Err(_) => FetchStage::Finished,
        },
        FetchEvent::MarkerRemoved(_) => FetchStage::Finished,
    }
}

/// The action that answers an accepted event, given the two paths of the
/// fetch and the stage it was in.
pub open spec fn next_action<T>(
    marker: Seq<char>,
    record: Seq<char>,
    stage: FetchStage<T>,
    event: FetchEvent<T>,
) -> FetchActionView<T> {
    match event {
        FetchEvent::MarkerChecked(present) => if present {
            FetchActionView::ReadRecord(record)
        } else {
            FetchActionView::Complete(Err(FetchError::NotReady))
        },
        FetchEvent::RecordRead(read) => match read {
            Ok(_) => FetchActionView::RemoveMarker(marker),
            Err(e) => FetchActionView::Complete(Err(e)),
        },
        FetchEvent::MarkerRemoved(removed) => match stage {
            FetchStage::AwaitingRemoval(r) => if removed {
                FetchActionView::Complete(Ok(r))
            } else {
                FetchActionView::Abort
            },
            _ => FetchActionView::Abort,
        },
    }
}

/// What a whole fetch ends in, from a fresh start, when the marker check
/// answers `present`, the read (if made) answers `read`, and the removal (if
/// made) answers `removed`.
pub open spec fn fetch_outcome<T>(
    present: bool,
    read: Result<T, FetchError>,
    removed: bool,
) -> FetchActionView<T> {
    if !present {
        FetchActionView::Complete(Err(FetchError::NotReady))
    } else {
        match read {
            Err(e) => FetchActionView::Complete(Err(e)),
            Ok(r) => if removed {
                FetchActionView::Complete(Ok(r))
            } else {
                FetchActionView::Abort
            },
        }
    }
}

impl<T> Fetch<T> {
    /// Starts a fetch of the record at `record_path`, guarded by the marker at
    /// `marker_path`; the first action checks for the marker.
    pub fn start(marker_path: String, record_path: String) -> (res: (Fetch<T>, FetchAction<T>))
        ensures
            res.0.marker_path@ == marker_path@,
            res.0.record_path@ == record_path@,
            res.0.stage is AwaitingMarker,
            res.1@ == FetchActionView::<T>::CheckMarker(marker_path@),
    {
        let check = marker_path.clone();
        (Fetch { marker_path, record_path, stage: FetchStage::AwaitingMarker }, FetchAction::CheckMarker(check))
    }

    /// Whether `event` is the answer that the fetch waits for.
    pub fn accepts(&self, event: &FetchEvent<T>) -> (b: bool)
        ensures
            b == stage_accepts(self.stage, *event),
    {
        match (&self.stage, event) {
            (FetchStage::AwaitingMarker, FetchEvent::MarkerChecked(_)) => true,
            (FetchStage::AwaitingRecord, FetchEvent::RecordRead(_)) => true,
            (FetchStage::AwaitingRemoval(_), FetchEvent::MarkerRemoved(_)) => true,
            _ => false,
        }
    }

    /// Takes the answer to the last action and gives the next action.
    pub fn step(&mut self, event: FetchEvent<T>) -> (action: FetchAction<T>)
        requires
            stage_accepts(old(self).stage, event),
        ensures
            final(self).marker_path@ == old(self).marker_path@,
            final(self).record_path@ == old(self).record_path@,
            final(self).stage == next_stage(event),
            action@ == next_action(old(self).marker_path@, old(self).record_path@, old(self).stage, event),
            event == FetchEvent::<T>::MarkerChecked(false) ==> action@ == FetchActionView::<T>::Complete(
                Err(FetchError::NotReady),
            ),
            event == FetchEvent::<T>::MarkerChecked(true) ==> action@ == FetchActionView::<T>::ReadRecord(
                old(self).record_path@,
            ) && final(self).stage is AwaitingRecord,
            event matches FetchEvent::RecordRead(Err(e)) ==> action@ == FetchActionView::<T>::Complete(Err(e))
                && final(self).stage is Finished,
            event matches FetchEvent::RecordRead(Ok(r)) ==> action@ == FetchActionView::<T>::RemoveMarker(
                old(self).marker_path@,
            ) && final(self).stage == FetchStage::AwaitingRemoval(r),
            old(self).stage matches FetchStage::AwaitingRemoval(r) ==> (event == FetchEvent::<T>::MarkerRemoved(
                true,
            ) ==> action@ == FetchActionView::<T>::Complete(Ok(r))),
            event == FetchEvent::<T>::MarkerRemoved(false) ==> action@ == FetchActionView::<T>::Abort,
    {
        let mut stage = FetchStage::Finished;
        std::mem::swap(&mut stage, &mut self.stage);
        match event {
            FetchEvent::MarkerChecked(present) => {
                if present {
                    self.stage = FetchStage::AwaitingRecord;
                    FetchAction::ReadRecord(self.record_path.clone())
                } else {
                    FetchAction::Complete(Err(FetchError::NotReady))
                }
            },
            FetchEvent::RecordRead(read) => {
                match read {
                    Ok(record) => {
                        self.stage = FetchStage::AwaitingRemoval(record);
                        FetchAction::RemoveMarker(self.marker_path.clone())
                    },
                    Err(e) => FetchAction::Complete(Err(e)),
                }
            },
            FetchEvent::MarkerRemoved(removed) => {
                match stage {
                    FetchStage::AwaitingRemoval(record) => {
                        if removed {
                            FetchAction::Complete(Ok(record))
                        } else {
                            FetchAction::Abort
                        }
                    },
                    _ => FetchAction::Abort,
                }
            },
        }
    }
}

/// A fetch hands out a record only if it found the marker, read the record
/// and removed the marker, and what it hands out is the record it read; a
/// missing marker or a failed read ends it with that error, before anything
/// is removed.
pub proof fn lemma_fetch_run<T>(
    marker: Seq<char>,
    record: Seq<char>,
    present: bool,
    read: Result<T, FetchError>,
    removed: bool,
)
    ensures
        ({
            let a1 = next_action(marker, record, FetchStage::AwaitingMarker, FetchEvent::<T>::MarkerChecked(present));
            let s1 = next_stage(FetchEvent::<T>::MarkerChecked(present));
            if !present {
                &&& s1 is Finished
                &&& a1 == fetch_outcome(present, read, removed)
            } else {
                let a2 = next_action(marker, record, s1, FetchEvent::RecordRead(read));
                let s2 = next_stage(FetchEvent::RecordRead(read));
                &&& a1 == FetchActionView::<T>::ReadRecord(record)
                &&& stage_accepts(s1, FetchEvent::RecordRead(read))
                &&& match read {
                    Err(_) => s2 is Finished && a2 == fetch_outcome(present, read, removed),
                    Ok(_) => {
                        let a3 = next_action(marker, record, s2, FetchEvent::MarkerRemoved(removed));
                        &&& a2 == FetchActionView::<T>::RemoveMarker(marker)
                        &&& stage_accepts(s2, FetchEvent::<T>::MarkerRemoved(removed))
                        &&& next_stage(FetchEvent::<T>::MarkerRemoved(removed)) is Finished
                        &&& a3 == fetch_outcome(present, read, removed)
                    },
                }
            }
        }),
        fetch_outcome(present, read, removed) matches FetchActionView::Complete(Ok(r)) ==> present
            && removed && read == Ok::<T, FetchError>(r),
{
}

} // verus!
