//! The life cycle of the on-disk index of a source file: probe, load,
//! validate, rebuild, persist, and the order in which native handles go away.
//!
//! The native work is done by the caller. `IndexCache` says which step comes
//! next and takes in how each step went.

use vstd::prelude::*;
use crate::error::{prefixed, DecoderError};
use crate::helpers::ffms2::FfmsIndex;

verus! {

/// Where the index of a source file stands.
#[derive(Clone, Copy, Debug, PartialEq, Eq, Structural)]
pub enum IndexPhase {
    /// Nothing is known yet.
    Absent,
    /// An index file lies beside the source.
    Probed,
    /// The index file was read; it is not yet known whose it is.
    Loaded,
    /// The loaded index belongs to the source.
    Validated,
    /// The loaded index belongs to something else and has to go.
    Stale,
    /// No usable index is at hand: none on disk, an unreadable one, or a
    /// stale one that was thrown away.
    Unindexed,
    /// An indexer was made for the source.
    Indexing,
    /// The source was indexed afresh.
    Built,
    /// The fresh index was handed to the disk, whether or not it took it.
    Saved,
    /// An index is in use and its first video track is known.
    Ready {
        /// The first indexed video track.
        track: i32,
        /// Whether the index was built afresh rather than read from disk.
        rebuilt: bool,
    },
    /// Indexing failed, or the caller reported a step that was not asked for.
    Failed,
}

/// The native step that a phase waits for.
#[derive(Clone, Copy, Debug, PartialEq, Eq, Structural)]
pub enum IndexAction {
    /// Look whether the index file exists.
    Probe,
    /// Read the index file.
    Load,
    /// Ask whether the loaded index belongs to the source file.
    Validate,
    /// Destroy the loaded index.
    Discard,
    /// Create an indexer for the source file.
    CreateIndexer,
    /// Switch indexing off for every kind of track but video, then index.
    RunIndexing,
    /// Write the fresh index to the index file.
    Persist,
    /// Look up the first indexed video track.
    FindTrack,
    /// Nothing is left to do: collect the result.
    Finish,
}

/// How a native step went.
pub enum IndexEvent {
    /// The index file was looked for.
    Probed {
        /// Whether it exists.
        exists: bool,
    },
    /// The index file was read.
    Loaded {
        /// Whether the codec library made an index of it.
        found: bool,
    },
    /// The loaded index was held against the source file.
    Checked {
        /// Whether it belongs to it.
        belongs: bool,
    },
    /// The loaded index was destroyed.
    Discarded,
    /// An indexer was created.
    IndexerCreated,
    /// No indexer could be created.
    IndexerFailed {
        /// What the codec library reported.
        message: String,
    },
    /// The source was indexed.
    Indexed,
    /// Indexing failed.
    IndexingFailed {
        /// What the codec library reported.
        message: String,
    },
    /// The fresh index was written, or could not be.
    Written {
        /// Whether the write went through.
        ok: bool,
    },
    /// The first indexed video track was looked up.
    TrackFound {
        /// Its number.
        track: i32,
    },
}

/// The kinds of track that a source may hold.
#[derive(Clone, Copy, Debug, PartialEq, Eq, Structural)]
pub enum TrackType {
    /// Pictures.
    Video,
    /// Sound.
    Audio,
    /// Opaque data.
    Data,
    /// Subtitles.
    Subtitle,
    /// Attached files.
    Attachment,
}

/// A native handle that a decoder over an indexed source holds.
#[derive(Clone, Copy, Debug, PartialEq, Eq, Structural)]
pub enum NativeHandle {
    /// The decoding context. It was made from the index and reads from it.
    VideoSource,
    /// The index.
    Index,
}

/// The step that a phase waits for.
pub open spec fn pending(phase: IndexPhase) -> IndexAction {
    match phase {
        IndexPhase::Absent => IndexAction::Probe,
        IndexPhase::Probed => IndexAction::Load,
        IndexPhase::Loaded => IndexAction::Validate,
        IndexPhase::Stale => IndexAction::Discard,
        IndexPhase::Unindexed => IndexAction::CreateIndexer,
        IndexPhase::Indexing => IndexAction::RunIndexing,
        IndexPhase::Built => IndexAction::Persist,
        IndexPhase::Validated | IndexPhase::Saved => IndexAction::FindTrack,
        IndexPhase::Ready { .. } | IndexPhase::Failed => IndexAction::Finish,
    }
}

/// The phase that follows `phase` once `event` is reported. An event that
/// does not answer the pending step leads to `Failed`. A failed write does
/// not: the index in memory is as good as the one on disk would be.
pub open spec fn step(phase: IndexPhase, event: IndexEvent) -> IndexPhase {
    match (phase, event) {
        (IndexPhase::Absent, IndexEvent::Probed { exists }) => if exists {
            IndexPhase::Probed
        } else {
            IndexPhase::Unindexed
        },
        (IndexPhase::Probed, IndexEvent::Loaded { found }) => if found {
            IndexPhase::Loaded
        } else {
            IndexPhase::Unindexed
        },
        (IndexPhase::Loaded, IndexEvent::Checked { belongs }) => if belongs {
            IndexPhase::Validated
        } else {
            IndexPhase::Stale
        },
        (IndexPhase::Stale, IndexEvent::Discarded) => IndexPhase::Unindexed,
        (IndexPhase::Unindexed, IndexEvent::IndexerCreated) => IndexPhase::Indexing,
        (IndexPhase::Indexing, IndexEvent::Indexed) => IndexPhase::Built,
        (IndexPhase::Built, IndexEvent::Written { ok }) => IndexPhase::Saved,
        (IndexPhase::Validated, IndexEvent::TrackFound { track }) => IndexPhase::Ready {
            track,
            rebuilt: false,
        },
        (IndexPhase::Saved, IndexEvent::TrackFound { track }) => IndexPhase::Ready {
            track,
            rebuilt: true,
        },
        _ => IndexPhase::Failed,
    }
}

/// The phase reached from `Absent` once the events were reported in order.
pub open spec fn run(events: Seq<IndexEvent>) -> IndexPhase
    decreases events.len(),
{
    if events.len() == 0 {
        IndexPhase::Absent
    } else {
        step(run(events.drop_last()), events.last())
    }
}

/// The kinds of track that indexing passes over.
pub open spec fn spec_skipped_track_types() -> Seq<TrackType> {
    seq![TrackType::Audio, TrackType::Data, TrackType::Subtitle, TrackType::Attachment]
}

/// The handles to release, first to last: the video source before the index
/// it was made from.
pub open spec fn spec_release_order(source_open: bool, index_open: bool) -> Seq<NativeHandle> {
    (if source_open {
        seq![NativeHandle::VideoSource]
    } else {
        Seq::<NativeHandle>::empty()
    }) + (if index_open {
        seq![NativeHandle::Index]
    } else {
        Seq::<NativeHandle>::empty()
    })
}

/// The kinds of track for which indexing is switched off before it runs:
/// all of them but video.
pub fn skipped_track_types() -> (kinds: Vec<TrackType>)
    ensures
        kinds@ == spec_skipped_track_types(),
        forall|i: int| 0 <= i < kinds@.len() ==> kinds@[i] != TrackType::Video,
{
    let kinds = vec![TrackType::Audio, TrackType::Data, TrackType::Subtitle, TrackType::Attachment];
    assert(kinds@ =~= spec_skipped_track_types());
    kinds
}

/// The order in which a decoder's open handles are released on every way
/// out: the video source first, the index last.
pub fn release_order(source_open: bool, index_open: bool) -> (order: Vec<NativeHandle>)
    ensures
        order@ == spec_release_order(source_open, index_open),
{
    let mut order: Vec<NativeHandle> = Vec::new();
    if source_open {
        order.push(NativeHandle::VideoSource);
    }
    if index_open {
        order.push(NativeHandle::Index);
    }
    assert(order@ =~= spec_release_order(source_open, index_open));
    order
}

/// The index cache of one source file.
pub struct IndexCache {
    /// The source file.
    pub path: String,
    /// Where its index stands.
    pub phase: IndexPhase,
    /// Why indexing failed, once it has.
    pub failure: Option<String>,
}

impl IndexCache {
    /// The cache of a source file of which nothing is known yet.
    pub fn new(path: String) -> (cache: IndexCache)
        ensures
            cache.path == path,
            cache.phase == IndexPhase::Absent,
            cache.failure is None,
    {
        IndexCache { path, phase: IndexPhase::Absent, failure: None }
    }

    /// Where the index file of the source lies: beside it, under its name
    /// with `.ffindex` appended.
    pub fn index_path(&self) -> (index_path: String)
        ensures
            index_path@ == self.path@ + ".ffindex"@,
    {
        prefixed(self.path.as_str(), ".ffindex")
    }

    /// The native step to take next.
    pub fn next_action(&self) -> (action: IndexAction)
        ensures
            action == pending(self.phase),
    {
        match self.phase {
            IndexPhase::Absent => IndexAction::Probe,
            IndexPhase::Probed => IndexAction::Load,
            IndexPhase::Loaded => IndexAction::Validate,
            IndexPhase::Stale => IndexAction::Discard,
            IndexPhase::Unindexed => IndexAction::CreateIndexer,
            IndexPhase::Indexing => IndexAction::RunIndexing,
            IndexPhase::Built => IndexAction::Persist,
            IndexPhase::Validated => IndexAction::FindTrack,
            IndexPhase::Saved => IndexAction::FindTrack,
            IndexPhase::Ready { .. } => IndexAction::Finish,
            IndexPhase::Failed => IndexAction::Finish,
        }
    }

    /// Takes in how the pending step went. Where the indexer could not be
    /// created or indexing failed, the native message is kept for `finish`.
    pub fn advance(&mut self, event: IndexEvent)
        ensures
            final(self).path == old(self).path,
            final(self).phase == step(old(self).phase, event),
            old(self).phase == IndexPhase::Unindexed ==> (event matches IndexEvent::IndexerFailed {
                message,
            } ==> final(self).failure matches Some(cause) && cause@
                == "Failed to create indexer: "@ + message@),
            old(self).phase == IndexPhase::Indexing ==> (event matches IndexEvent::IndexingFailed {
                message,
            } ==> final(self).failure matches Some(cause) && cause@
                == "Failed to index input file: "@ + message@),
            !(old(self).phase == IndexPhase::Unindexed && event is IndexerFailed) && !(old(
                self,
            ).phase == IndexPhase::Indexing && event is IndexingFailed) ==> final(self).failure
                == old(self).failure,
    {
        match (self.phase, event) {
            (IndexPhase::Absent, IndexEvent::Probed { exists }) => {
                self.phase = if exists {
                    IndexPhase::Probed
                } else {
                    IndexPhase::Unindexed
                };
            },
            (IndexPhase::Probed, IndexEvent::Loaded { found }) => {
                self.phase = if found {
                    IndexPhase::Loaded
                } else {
                    IndexPhase::Unindexed
                };
            },
            (IndexPhase::Loaded, IndexEvent::Checked { belongs }) => {
                self.phase = if belongs {
                    IndexPhase::Validated
                } else {
                    IndexPhase::Stale
                };
            },
            (IndexPhase::Stale, IndexEvent::Discarded) => {
                self.phase = IndexPhase::Unindexed;
            },
            (IndexPhase::Unindexed, IndexEvent::IndexerCreated) => {
                self.phase = IndexPhase::Indexing;
            },
            (IndexPhase::Unindexed, IndexEvent::IndexerFailed { message }) => {
                self.failure = Some(prefixed("Failed to create indexer: ", message.as_str()));
                self.phase = IndexPhase::Failed;
            },
            (IndexPhase::Indexing, IndexEvent::Indexed) => {
                self.phase = IndexPhase::Built;
            },
            (IndexPhase::Indexing, IndexEvent::IndexingFailed { message }) => {
                self.failure = Some(prefixed("Failed to index input file: ", message.as_str()));
                self.phase = IndexPhase::Failed;
            },
            (IndexPhase::Built, IndexEvent::Written { ok }) => {
                self.phase = IndexPhase::Saved;
            },
            (IndexPhase::Validated, IndexEvent::TrackFound { track }) => {
                self.phase = IndexPhase::Ready { track, rebuilt: false };
            },
            (IndexPhase::Saved, IndexEvent::TrackFound { track }) => {
                self.phase = IndexPhase::Ready { track, rebuilt: true };
            },
            _ => {
                self.phase = IndexPhase::Failed;
            },
        }
    }

    /// The outcome: the index and its video track once the cache is ready,
    /// a `GenericDecodeError` otherwise, with the native message where
    /// indexing failed.
    pub fn finish(self) -> (r: Result<FfmsIndex, DecoderError>)
        ensures
            match self.phase {
                IndexPhase::Ready { track, rebuilt } => r matches Ok(index) && index.path
                    == self.path && index.track == track,
                _ => r matches Err(DecoderError::GenericDecodeError { cause }) && match self.failure {
                    Some(kept) => cause == kept,
                    None => cause@ == "the index of the input file is not ready"@,
                },
            },
    {
        match self.phase {
            IndexPhase::Ready { track, .. } => Ok(FfmsIndex { path: self.path, track }),
            _ => match self.failure {
                Some(cause) => Err(DecoderError::GenericDecodeError { cause }),
                None => Err(
                    DecoderError::GenericDecodeError {
                        cause: "the index of the input file is not ready".to_owned(),
                    },
                ),
            },
        }
    }
}

/// No report leads back to `Absent`: only a cache that has heard nothing is
/// there.
pub proof fn lemma_absent_is_initial(events: Seq<IndexEvent>)
    ensures
        run(events) == IndexPhase::Absent ==> events.len() == 0,
{
}

/// An index read from disk is in use at the end only if it was found, read
/// and confirmed to belong to the source, in that order and with nothing
/// else reported. An index that does not belong to the source is never used.
pub proof fn lemma_reuse_needs_validation(events: Seq<IndexEvent>)
    requires
        run(events) matches IndexPhase::Ready { track, rebuilt } && !rebuilt,
    ensures
        events.len() == 4,
        events[0] == (IndexEvent::Probed { exists: true }),
        events[1] == (IndexEvent::Loaded { found: true }),
        events[2] == (IndexEvent::Checked { belongs: true }),
        events[3] is TrackFound,
{
    let e3 = events.drop_last();
    assert(run(e3) == IndexPhase::Validated);
    let e2 = e3.drop_last();
    assert(run(e2) == IndexPhase::Loaded);
    let e1 = e2.drop_last();
    assert(run(e1) == IndexPhase::Probed);
    let e0 = e1.drop_last();
    assert(run(e0) == IndexPhase::Absent);
    lemma_absent_is_initial(e0);
}

/// Once the loaded index is found not to belong to the source it is thrown
/// away and the source is indexed afresh: whatever is reported afterwards,
/// the cache can only become ready with a rebuilt index.
pub proof fn lemma_stale_index_is_rebuilt(before: Seq<IndexEvent>, after: Seq<IndexEvent>)
    requires
        run(before) == IndexPhase::Loaded,
    ensures
        run(before.push(IndexEvent::Checked { belongs: false })) == IndexPhase::Stale,
        pending(IndexPhase::Stale) == IndexAction::Discard,
        run(before.push(IndexEvent::Checked { belongs: false }) + after) matches IndexPhase::Ready {
            track,
            rebuilt,
        } ==> rebuilt,
{
    let stale = before.push(IndexEvent::Checked { belongs: false });
    assert(stale.drop_last() =~= before);
    assert(run(stale) == IndexPhase::Stale);
    let all = stale + after;
    match run(all) {
        IndexPhase::Ready { track, rebuilt } => {
            if !rebuilt {
                lemma_reuse_needs_validation(all);
                lemma_loaded_after_two(before);
                assert(all[2] == stale[2]);
                assert(all[2] == (IndexEvent::Checked { belongs: false }));
            }
        },
        _ => {},
    }
}

/// A cache is in `Loaded` only after exactly two reports.
proof fn lemma_loaded_after_two(events: Seq<IndexEvent>)
    requires
        run(events) == IndexPhase::Loaded,
    ensures
        events.len() == 2,
{
    let e1 = events.drop_last();
    assert(run(e1) == IndexPhase::Probed);
    let e0 = e1.drop_last();
    assert(run(e0) == IndexPhase::Absent);
    lemma_absent_is_initial(e0);
}

} // verus!
