//! Order of the steps that create a cache.
//!
//! The dataset is scanned before anything is created, so a missing dataset
//! root leaves no store, no metadata row and no image row behind. The caller
//! performs each action that `next_action` names and reports its outcome.
use vstd::prelude::*;

verus! {

/// Progress of a cache creation; the count is the number of records found.
#[derive(Debug, Clone, Copy, PartialEq, Eq)]
pub enum CacheStage {
    Start,
    Scanned(usize),
    StoreOpen(usize),
    MetadataWritten(usize),
    Finished(usize),
    Failed,
}

/// What the caller is to do next.
#[derive(Debug, Clone, Copy, PartialEq, Eq)]
pub enum CacheAction {
    /// Scan the dataset root into records.
    ScanDataset,
    /// Create the cache's parent directories and open the store.
    OpenStore,
    /// Write the one metadata row.
    WriteMetadata,
    /// Write this many records in batches.
    WriteImages(usize),
    /// The cache is complete; report this many images.
    Done(usize),
    /// A step failed: report its error.
    Stop,
}

impl CacheStage {
    /// The action that the stage calls for.
    pub open spec fn action(self) -> CacheAction {
        match self {
            CacheStage::Start => CacheAction::ScanDataset,
            CacheStage::Scanned(_) => CacheAction::OpenStore,
            CacheStage::StoreOpen(_) => CacheAction::WriteMetadata,
            CacheStage::MetadataWritten(n) => if n > 0 {
                CacheAction::WriteImages(n)
            } else {
                CacheAction::Done(0)
            },
            CacheStage::Finished(n) => CacheAction::Done(n),
            CacheStage::Failed => CacheAction::Stop,
        }
    }

    /// The stage after the action of `self`: `found` is the number of records
    /// of a successful scan (ignored by the other actions), `ok` whether the
    /// action succeeded.
    pub open spec fn step(self, ok: bool, found: usize) -> CacheStage {
        if !ok {
            CacheStage::Failed
        } else {
            match self {
                CacheStage::Start => CacheStage::Scanned(found),
                CacheStage::Scanned(n) => CacheStage::StoreOpen(n),
                CacheStage::StoreOpen(n) => CacheStage::MetadataWritten(n),
                CacheStage::MetadataWritten(n) => CacheStage::Finished(n),
                other => other,
            }
        }
    }

    /// The action to perform next.
    pub fn next_action(&self) -> (r: CacheAction)
        ensures
            r == self.action(),
    {
        match self {
            CacheStage::Start => CacheAction::ScanDataset,
            CacheStage::Scanned(_) => CacheAction::OpenStore,
            CacheStage::StoreOpen(_) => CacheAction::WriteMetadata,
            CacheStage::MetadataWritten(n) => if *n > 0 {
                CacheAction::WriteImages(*n)
            } else {
                CacheAction::Done(0)
            },
            CacheStage::Finished(n) => CacheAction::Done(*n),
            CacheStage::Failed => CacheAction::Stop,
        }
    }

    /// The stage after the outcome of the action last named by `next_action`.
    pub fn after(&self, ok: bool, found: usize) -> (r: CacheStage)
        ensures
            r == self.step(ok, found),
    {
        if !ok {
            CacheStage::Failed
        } else {
            match self {
                CacheStage::Start => CacheStage::Scanned(found),
                CacheStage::Scanned(n) => CacheStage::StoreOpen(*n),
                CacheStage::StoreOpen(n) => CacheStage::MetadataWritten(*n),
                CacheStage::MetadataWritten(n) => CacheStage::Finished(*n),
                other => *other,
            }
        }
    }
}

/// Whether an action creates or writes anything in the cache.
pub open spec fn touches_cache(a: CacheAction) -> bool {
    a is OpenStore || a is WriteMetadata || a is WriteImages
}

/// The stages reached from `s` through `k` more outcomes, the i-th of which
/// is `oks[i]` with scan count `counts[i]`.
pub open spec fn run(s: CacheStage, oks: Seq<bool>, counts: Seq<usize>) -> CacheStage
    decreases oks.len(),
{
    if oks.len() == 0 || counts.len() == 0 {
        s
    } else {
        run(s.step(oks[0], counts[0]), oks.drop_first(), counts.drop_first())
    }
}

/// A failed scan (a missing dataset root) ends creation at once: whatever
/// outcomes follow, no later action opens the store or writes a row.
pub proof fn lemma_failed_scan_touches_nothing(oks: Seq<bool>, counts: Seq<usize>, found: usize)
    ensures
        CacheStage::Start.step(false, found) == CacheStage::Failed,
        !touches_cache(run(CacheStage::Failed, oks, counts).action()),
    decreases oks.len(),
{
    if oks.len() > 0 && counts.len() > 0 {
        lemma_failed_scan_touches_nothing(oks.drop_first(), counts.drop_first(), found);
    }
}

/// A scan that finds no image still opens the store and writes the metadata
/// row, then finishes with a count of zero and writes no image.
pub proof fn lemma_empty_dataset()
    ensures
        CacheStage::Start.step(true, 0).action() == CacheAction::OpenStore,
        CacheStage::Start.step(true, 0).step(true, 0).action() == CacheAction::WriteMetadata,
        CacheStage::Start.step(true, 0).step(true, 0).step(true, 0).action() == CacheAction::Done(0),
{
}

/// When every step succeeds, creation reports the number of records found.
pub proof fn lemma_reports_found(n: usize)
    requires
        n > 0,
    ensures
        CacheStage::Start.step(true, n).step(true, 0).step(true, 0).action() == CacheAction::WriteImages(n),
        CacheStage::Start.step(true, n).step(true, 0).step(true, 0).step(true, 0).action() == CacheAction::Done(n),
{
}

} // verus!
