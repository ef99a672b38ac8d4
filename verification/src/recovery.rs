//! Crash recovery of the current game: a debounced, single-writer checkpoint
//! schedule, and how a stored checkpoint is classified at startup.
use vstd::prelude::*;
use crate::model::NodePath;
use crate::text::str_eq;

verus! {

broadcast use vstd::string::group_string_axioms;

pub const RECOVERY_FILE: &'static str = "current-game-recovery.json";

/// How long a first unsaved change may wait before its checkpoint is due.
pub const RECOVERY_WRITE_DELAY_MS: u64 = 1000;

pub const UNPROTECTED_WRITE_MESSAGE: &'static str =
    "Recent current-game changes are not yet protected.";

pub const RECOVERY_UNREADABLE_MESSAGE: &'static str =
    "Recovery snapshot is unreadable and was not applied.";

/// How the application ended (or is ending) the document of a checkpoint.
#[derive(Debug, Clone, Copy, PartialEq, Eq, Structural)]
pub enum ApplicationExitDispositionDto {
    ExitIncomplete,
    CleanCompleted,
    ExplicitDiscard,
}

#[derive(Debug, Clone, PartialEq)]
pub struct RecoveryEnvelopeDto {
    pub document_seq: u64,
    pub snapshot_seq: u64,
    pub sgf_text: String,
    pub selected_path: NodePath,
    pub source_path: Option<String>,
    pub dirty: bool,
    pub disposition: ApplicationExitDispositionDto,
}

/// The value of a checkpoint envelope.
pub struct RecoveryEnvelopeView {
    pub document_seq: u64,
    pub snapshot_seq: u64,
    pub sgf_text: Seq<char>,
    pub selected_path: Seq<u32>,
    pub source_path: Option<Seq<char>>,
    pub dirty: bool,
    pub disposition: ApplicationExitDispositionDto,
}

pub open spec fn opt_chars(s: Option<String>) -> Option<Seq<char>> {
    match s {
        Some(x) => Some(x@),
        None => None,
    }
}

impl View for RecoveryEnvelopeDto {
    type V = RecoveryEnvelopeView;

    open spec fn view(&self) -> RecoveryEnvelopeView {
        RecoveryEnvelopeView {
            document_seq: self.document_seq,
            snapshot_seq: self.snapshot_seq,
            sgf_text: self.sgf_text@,
            selected_path: self.selected_path@,
            source_path: opt_chars(self.source_path),
            dirty: self.dirty,
            disposition: self.disposition,
        }
    }
}

#[derive(Debug, Clone, PartialEq, Eq)]
pub enum RecoveryProtectionDto {
    Protected,
    Unprotected { message: String },
}

pub enum ProtectionView {
    Protected,
    Unprotected(Seq<char>),
}

impl View for RecoveryProtectionDto {
    type V = ProtectionView;

    open spec fn view(&self) -> ProtectionView {
        match self {
            RecoveryProtectionDto::Protected => ProtectionView::Protected,
            RecoveryProtectionDto::Unprotected { message } => ProtectionView::Unprotected(message@),
        }
    }
}

#[derive(Debug, Clone, PartialEq)]
pub enum RecoveryStartupDto {
    NoRecovery,
    Abnormal { envelope: RecoveryEnvelopeDto },
    Normal { envelope: RecoveryEnvelopeDto },
    Unreadable { message: String },
}

/// The current game at one moment, as the workspace reports it.
#[derive(Debug, Clone, PartialEq)]
pub struct RecoverySnapshot {
    pub document_seq: u64,
    pub snapshot_seq: u64,
    pub sgf_text: String,
    pub selected_path: NodePath,
    pub source_path: Option<String>,
    pub dirty: bool,
}

/// `a` belongs to a later document, or to a later snapshot of the same one.
pub open spec fn newer(a: RecoveryEnvelopeView, b: RecoveryEnvelopeView) -> bool {
    a.document_seq > b.document_seq || (a.document_seq == b.document_seq && a.snapshot_seq
        > b.snapshot_seq)
}

impl RecoveryEnvelopeDto {
    pub fn is_newer_than(&self, other: &RecoveryEnvelopeDto) -> (r: bool)
        ensures
            r == newer(self@, other@),
    {
        self.document_seq > other.document_seq || (self.document_seq == other.document_seq
            && self.snapshot_seq > other.snapshot_seq)
    }
}

/// The envelope of a snapshot, with the disposition it is written under.
pub open spec fn envelope_of(
    s: RecoverySnapshot,
    disposition: ApplicationExitDispositionDto,
) -> RecoveryEnvelopeView {
    RecoveryEnvelopeView {
        document_seq: s.document_seq,
        snapshot_seq: s.snapshot_seq,
        sgf_text: s.sgf_text@,
        selected_path: s.selected_path@,
        source_path: opt_chars(s.source_path),
        dirty: s.dirty,
        disposition,
    }
}

pub fn envelope_from_snapshot(
    snapshot: RecoverySnapshot,
    disposition: ApplicationExitDispositionDto,
) -> (r: RecoveryEnvelopeDto)
    ensures
        r@ == envelope_of(snapshot, disposition),
{
    RecoveryEnvelopeDto {
        document_seq: snapshot.document_seq,
        snapshot_seq: snapshot.snapshot_seq,
        sgf_text: snapshot.sgf_text,
        selected_path: snapshot.selected_path,
        source_path: snapshot.source_path,
        dirty: snapshot.dirty,
        disposition,
    }
}

// Whether an envelope may be restored (`validate_envelope`: its SGF text
// opens and its selected path leads to a node) is decided by the SGF
// document model of the `sgf` crate, which this library does not depend on
// and cannot build; that check stays with the code that opens the document.

fn clone_envelope(e: &RecoveryEnvelopeDto) -> (r: RecoveryEnvelopeDto)
    ensures
        r@ == e@,
{
    RecoveryEnvelopeDto {
        document_seq: e.document_seq,
        snapshot_seq: e.snapshot_seq,
        sgf_text: e.sgf_text.clone(),
        selected_path: e.selected_path.clone(),
        source_path: e.source_path.clone(),
        dirty: e.dirty,
        disposition: e.disposition,
    }
}

fn opt_str_eq(a: &Option<String>, b: &Option<String>) -> (r: bool)
    ensures
        r == (opt_chars(*a) == opt_chars(*b)),
{
    match (a, b) {
        (Some(x), Some(y)) => str_eq(x, y),
        (None, None) => true,
        _ => false,
    }
}

/// Whether two envelopes hold the same checkpoint.
fn same_envelope(a: &RecoveryEnvelopeDto, b: &RecoveryEnvelopeDto) -> (r: bool)
    ensures
        r == (a@ == b@),
{
    a.document_seq == b.document_seq && a.snapshot_seq == b.snapshot_seq && str_eq(
        &a.sgf_text,
        &b.sgf_text,
    ) && a.selected_path.same_as(&b.selected_path) && opt_str_eq(&a.source_path, &b.source_path)
        && a.dirty == b.dirty && a.disposition == b.disposition
}

pub open spec fn opt_env(e: Option<RecoveryEnvelopeDto>) -> Option<RecoveryEnvelopeView> {
    match e {
        Some(x) => Some(x@),
        None => None,
    }
}

/// Schedules checkpoint writes of the current game: one write at a time, the
/// first unsaved change written within `RECOVERY_WRITE_DELAY_MS`, the latest
/// change kept while a write is under way, and nothing older than what is
/// already committed (or discarded) written again.
#[derive(Debug)]
pub struct RecoveryCoordinator {
    pending: Option<RecoveryEnvelopeDto>,
    writing: Option<RecoveryEnvelopeDto>,
    last_committed: Option<RecoveryEnvelopeDto>,
    due_at_ms: Option<u64>,
    protection: RecoveryProtectionDto,
    discarded_document_seq: Option<u64>,
}

/// The state of a coordinator.
pub struct CoordinatorView {
    /// The newest change not yet handed to a writer.
    pub pending: Option<RecoveryEnvelopeView>,
    /// The checkpoint handed to the writer and not yet finished.
    pub writing: Option<RecoveryEnvelopeView>,
    pub last_committed: Option<RecoveryEnvelopeView>,
    pub due_at_ms: Option<u64>,
    pub protection: ProtectionView,
    pub discarded_document_seq: Option<u64>,
}

impl View for RecoveryCoordinator {
    type V = CoordinatorView;

    closed spec fn view(&self) -> CoordinatorView {
        CoordinatorView {
            pending: opt_env(self.pending),
            writing: opt_env(self.writing),
            last_committed: opt_env(self.last_committed),
            due_at_ms: self.due_at_ms,
            protection: self.protection@,
            discarded_document_seq: self.discarded_document_seq,
        }
    }
}

/// A fresh coordinator: nothing pending, written or committed, protected.
pub open spec fn initial_coordinator() -> CoordinatorView {
    CoordinatorView {
        pending: None,
        writing: None,
        last_committed: None,
        due_at_ms: None,
        protection: ProtectionView::Protected,
        discarded_document_seq: None,
    }
}

/// A write in flight is never also waiting for a deadline.
pub open spec fn coordinator_wf(c: CoordinatorView) -> bool {
    c.writing is Some ==> c.due_at_ms is None
}

/// An envelope that must not be written: an incomplete or clean checkpoint of
/// a document already discarded, or one not newer than the committed
/// checkpoint (unless it only changes the disposition of that snapshot).
pub open spec fn is_stale(c: CoordinatorView, e: RecoveryEnvelopeView) -> bool {
    ||| (c.discarded_document_seq matches Some(seq) && e.document_seq <= seq && e.disposition
        != ApplicationExitDispositionDto::ExplicitDiscard)
    ||| (c.last_committed matches Some(k) && !newer(e, k) && !(e.document_seq == k.document_seq
        && e.snapshot_seq == k.snapshot_seq && e.disposition != k.disposition))
}

pub open spec fn saturating_add(a: u64, b: u64) -> u64 {
    if a + b > u64::MAX {
        u64::MAX
    } else {
        (a + b) as u64
    }
}

/// Noting a change: it becomes the pending checkpoint unless stale; a
/// deadline is set only when no write is under way and none is set yet.
pub open spec fn note_spec(c: CoordinatorView, e: RecoveryEnvelopeView, now_ms: u64) -> CoordinatorView {
    if is_stale(c, e) {
        c
    } else {
        CoordinatorView {
            pending: Some(e),
            due_at_ms: if c.writing is None && c.due_at_ms is None {
                Some(saturating_add(now_ms, RECOVERY_WRITE_DELAY_MS))
            } else {
                c.due_at_ms
            },
            ..c
        }
    }
}

/// Handing out the due checkpoint, if a deadline has passed and no write is
/// under way.
pub open spec fn take_due_spec(c: CoordinatorView, now_ms: u64) -> (CoordinatorView, Option<
    RecoveryEnvelopeView,
>) {
    if c.writing is Some {
        (c, None)
    } else {
        match c.due_at_ms {
            None => (c, None),
            Some(due) => if now_ms < due {
                (c, None)
            } else {
                match c.pending {
                    None => (c, None),
                    Some(e) => if is_stale(c, e) {
                        (CoordinatorView { pending: None, due_at_ms: None, ..c }, None)
                    } else {
                        (
                            CoordinatorView {
                                pending: None,
                                due_at_ms: None,
                                writing: Some(e),
                                ..c
                            },
                            Some(e),
                        )
                    },
                }
            },
        }
    }
}

/// Finishing the write of `e` with success (`ok`) or failure.
pub open spec fn finish_spec(c: CoordinatorView, e: RecoveryEnvelopeView, ok: bool) -> CoordinatorView {
    if c.writing != Some(e) {
        c
    } else {
        let c1 = CoordinatorView { writing: None, ..c };
        if ok {
            let c2 = if !is_stale(c1, e) {
                CoordinatorView {
                    discarded_document_seq: if e.disposition
                        == ApplicationExitDispositionDto::ExplicitDiscard {
                        Some(e.document_seq)
                    } else {
                        c1.discarded_document_seq
                    },
                    last_committed: Some(e),
                    protection: ProtectionView::Protected,
                    ..c1
                }
            } else {
                c1
            };
            if c2.pending is Some {
                CoordinatorView { due_at_ms: Some(0), ..c2 }
            } else {
                c2
            }
        } else {
            CoordinatorView {
                pending: if c1.pending is None {
                    Some(e)
                } else {
                    c1.pending
                },
                protection: ProtectionView::Unprotected(UNPROTECTED_WRITE_MESSAGE@),
                ..c1
            }
        }
    }
}

/// Handing out a final checkpoint at once, dropping any pending change.
pub open spec fn flush_spec(
    c: CoordinatorView,
    s: RecoverySnapshot,
    disposition: ApplicationExitDispositionDto,
) -> (CoordinatorView, Option<RecoveryEnvelopeView>) {
    let e = envelope_of(s, disposition);
    let c1 = CoordinatorView {
        discarded_document_seq: if disposition == ApplicationExitDispositionDto::ExplicitDiscard {
            Some(s.document_seq)
        } else {
            c.discarded_document_seq
        },
        pending: None,
        due_at_ms: None,
        ..c
    };
    if is_stale(c1, e) {
        (c1, None)
    } else {
        (CoordinatorView { writing: Some(e), ..c1 }, Some(e))
    }
}

/// Retrying at once the pending checkpoint, if no write is under way.
pub open spec fn retry_spec(c: CoordinatorView, now_ms: u64) -> (CoordinatorView, Option<
    RecoveryEnvelopeView,
>) {
    if c.writing is Some || c.pending is None {
        (c, None)
    } else {
        take_due_spec(CoordinatorView { due_at_ms: Some(now_ms), ..c }, now_ms)
    }
}

/// Seeding a fresh coordinator with the checkpoint found on disk.
pub open spec fn load_checkpoint_spec(c: CoordinatorView, e: RecoveryEnvelopeView) -> CoordinatorView {
    if c.last_committed is Some || c.pending is Some || c.writing is Some {
        c
    } else {
        CoordinatorView {
            discarded_document_seq: if e.disposition
                == ApplicationExitDispositionDto::ExplicitDiscard {
                Some(e.document_seq)
            } else {
                c.discarded_document_seq
            },
            last_committed: Some(e),
            ..c
        }
    }
}

/// Recording that `e` was committed as an explicit discard by another path.
pub open spec fn mark_discarded_spec(c: CoordinatorView, e: RecoveryEnvelopeView) -> CoordinatorView {
    CoordinatorView {
        discarded_document_seq: Some(e.document_seq),
        pending: None,
        due_at_ms: None,
        writing: None,
        last_committed: Some(
            RecoveryEnvelopeView { disposition: ApplicationExitDispositionDto::ExplicitDiscard, ..e },
        ),
        protection: ProtectionView::Protected,
    }
}

impl Default for RecoveryCoordinator {
    fn default() -> (r: Self)
        ensures
            r@ == initial_coordinator(),
    {
        RecoveryCoordinator {
            pending: None,
            writing: None,
            last_committed: None,
            due_at_ms: None,
            protection: RecoveryProtectionDto::Protected,
            discarded_document_seq: None,
        }
    }
}

impl RecoveryCoordinator {
    pub fn protection(&self) -> (r: RecoveryProtectionDto)
        ensures
            r@ == self@.protection,
    {
        match &self.protection {
            RecoveryProtectionDto::Protected => RecoveryProtectionDto::Protected,
            RecoveryProtectionDto::Unprotected { message } => RecoveryProtectionDto::Unprotected {
                message: message.clone(),
            },
        }
    }

    pub fn last_committed(&self) -> (r: Option<&RecoveryEnvelopeDto>)
        ensures
            match r {
                Some(e) => self@.last_committed == Some(e@),
                None => self@.last_committed is None,
            },
    {
        self.last_committed.as_ref()
    }

    fn is_stale(&self, envelope: &RecoveryEnvelopeDto) -> (r: bool)
        ensures
            r == is_stale(self@, envelope@),
    {
        if let Some(seq) = self.discarded_document_seq {
            if envelope.document_seq <= seq && envelope.disposition
                != ApplicationExitDispositionDto::ExplicitDiscard {
                return true;
            }
        }
        match &self.last_committed {
            None => false,
            Some(committed) => {
                if envelope.is_newer_than(committed) {
                    return false;
                }
                if envelope.document_seq == committed.document_seq && envelope.snapshot_seq
                    == committed.snapshot_seq && envelope.disposition != committed.disposition {
                    return false;
                }
                true
            },
        }
    }

    pub fn note(&mut self, snapshot: RecoverySnapshot, now_ms: u64)
        ensures
            final(self)@ == note_spec(
                old(self)@,
                envelope_of(snapshot, ApplicationExitDispositionDto::ExitIncomplete),
                now_ms,
            ),
    {
        let envelope = envelope_from_snapshot(
            snapshot,
            ApplicationExitDispositionDto::ExitIncomplete,
        );
        if self.is_stale(&envelope) {
            return;
        }
        self.pending = Some(envelope);
        if self.writing.is_none() && self.due_at_ms.is_none() {
            self.due_at_ms = Some(now_ms.saturating_add(RECOVERY_WRITE_DELAY_MS));
        }
    }

    pub fn take_due_write(&mut self, now_ms: u64) -> (r: Option<RecoveryEnvelopeDto>)
        ensures
            (final(self)@, opt_env(r)) == take_due_spec(old(self)@, now_ms),
    {
        if self.writing.is_some() {
            return None;
        }
        let due_at = match self.due_at_ms {
            Some(d) => d,
            None => {
                return None;
            },
        };
        if now_ms < due_at {
            return None;
        }
        let envelope = match self.pending.take() {
            Some(e) => e,
            None => {
                return None;
            },
        };
        if self.is_stale(&envelope) {
            self.due_at_ms = None;
            return None;
        }
        self.due_at_ms = None;
        self.writing = Some(clone_envelope(&envelope));
        Some(envelope)
    }

    pub fn finish_write(&mut self, envelope: RecoveryEnvelopeDto, result: Result<(), String>)
        ensures
            final(self)@ == finish_spec(old(self)@, envelope@, result is Ok),
    {
        let matches = match &self.writing {
            Some(w) => same_envelope(w, &envelope),
            None => false,
        };
        if !matches {
            return;
        }
        self.writing = None;
        match result {
            Ok(()) => {
                if !self.is_stale(&envelope) {
                    if envelope.disposition == ApplicationExitDispositionDto::ExplicitDiscard {
                        self.discarded_document_seq = Some(envelope.document_seq);
                    }
                    self.last_committed = Some(envelope);
                    self.protection = RecoveryProtectionDto::Protected;
                }
                if self.pending.is_some() {
                    self.due_at_ms = Some(0);
                }
            },
            Err(_) => {
                if self.pending.is_none() {
                    self.pending = Some(envelope);
                }
                self.protection = RecoveryProtectionDto::Unprotected {
                    message: String::from_str(UNPROTECTED_WRITE_MESSAGE),
                };
            },
        }
    }

    pub fn take_flush_write(
        &mut self,
        snapshot: RecoverySnapshot,
        disposition: ApplicationExitDispositionDto,
    ) -> (r: Option<RecoveryEnvelopeDto>)
        ensures
            (final(self)@, opt_env(r)) == flush_spec(old(self)@, snapshot, disposition),
    {
        if disposition == ApplicationExitDispositionDto::ExplicitDiscard {
            self.discarded_document_seq = Some(snapshot.document_seq);
        }
        let envelope = envelope_from_snapshot(snapshot, disposition);
        self.pending = None;
        self.due_at_ms = None;
        if self.is_stale(&envelope) {
            return None;
        }
        self.writing = Some(clone_envelope(&envelope));
        Some(envelope)
    }

    pub fn retry(&mut self, now_ms: u64) -> (r: Option<RecoveryEnvelopeDto>)
        ensures
            (final(self)@, opt_env(r)) == retry_spec(old(self)@, now_ms),
    {
        if self.writing.is_some() || self.pending.is_none() {
            return None;
        }
        self.due_at_ms = Some(now_ms);
        self.take_due_write(now_ms)
    }

    pub fn load_checkpoint(&mut self, envelope: RecoveryEnvelopeDto)
        ensures
            final(self)@ == load_checkpoint_spec(old(self)@, envelope@),
    {
        if self.last_committed.is_some() || self.pending.is_some() || self.writing.is_some() {
            return;
        }
        if envelope.disposition == ApplicationExitDispositionDto::ExplicitDiscard {
            self.discarded_document_seq = Some(envelope.document_seq);
        }
        self.last_committed = Some(envelope);
    }

    pub fn mark_discarded_committed(&mut self, envelope: RecoveryEnvelopeDto)
        ensures
            final(self)@ == mark_discarded_spec(old(self)@, envelope@),
    {
        let mut envelope = envelope;
        envelope.disposition = ApplicationExitDispositionDto::ExplicitDiscard;
        self.discarded_document_seq = Some(envelope.document_seq);
        self.pending = None;
        self.due_at_ms = None;
        self.writing = None;
        self.last_committed = Some(envelope);
        self.protection = RecoveryProtectionDto::Protected;
    }
}

/// What the startup screen offers for the checkpoint found on disk.
pub enum StartupView {
    NoRecovery,
    Abnormal(RecoveryEnvelopeView),
    Normal(RecoveryEnvelopeView),
    Unreadable(Seq<char>),
}

impl View for RecoveryStartupDto {
    type V = StartupView;

    open spec fn view(&self) -> StartupView {
        match self {
            RecoveryStartupDto::NoRecovery => StartupView::NoRecovery,
            RecoveryStartupDto::Abnormal { envelope } => StartupView::Abnormal(envelope@),
            RecoveryStartupDto::Normal { envelope } => StartupView::Normal(envelope@),
            RecoveryStartupDto::Unreadable { message } => StartupView::Unreadable(message@),
        }
    }
}

/// An unreadable file is reported; a missing or discarded checkpoint offers
/// nothing; an incomplete exit is abnormal, a clean one normal.
pub open spec fn classify_startup_spec(loaded: Result<Option<RecoveryEnvelopeView>, ()>) -> StartupView {
    match loaded {
        Err(()) => StartupView::Unreadable(RECOVERY_UNREADABLE_MESSAGE@),
        Ok(None) => StartupView::NoRecovery,
        Ok(Some(e)) => match e.disposition {
            ApplicationExitDispositionDto::ExplicitDiscard => StartupView::NoRecovery,
            ApplicationExitDispositionDto::ExitIncomplete => StartupView::Abnormal(e),
            ApplicationExitDispositionDto::CleanCompleted => StartupView::Normal(e),
        },
    }
}

pub open spec fn loaded_view(loaded: Result<Option<RecoveryEnvelopeDto>, String>) -> Result<
    Option<RecoveryEnvelopeView>,
    (),
> {
    match loaded {
        Ok(e) => Ok(opt_env(e)),
        Err(_) => Err(()),
    }
}

pub fn classify_startup(loaded: Result<Option<RecoveryEnvelopeDto>, String>) -> (r:
    RecoveryStartupDto)
    ensures
        r@ == classify_startup_spec(loaded_view(loaded)),
{
    match loaded {
        Err(_) => RecoveryStartupDto::Unreadable {
            message: String::from_str(RECOVERY_UNREADABLE_MESSAGE),
        },
        Ok(None) => RecoveryStartupDto::NoRecovery,
        Ok(Some(envelope)) => match envelope.disposition {
            ApplicationExitDispositionDto::ExplicitDiscard => RecoveryStartupDto::NoRecovery,
            ApplicationExitDispositionDto::ExitIncomplete => RecoveryStartupDto::Abnormal {
                envelope,
            },
            ApplicationExitDispositionDto::CleanCompleted => RecoveryStartupDto::Normal { envelope },
        },
    }
}

/// Whether a checkpoint file that holds `existing` may be replaced by `e`:
/// never by an older document or snapshot, never reviving a discarded
/// document, and never turning a clean exit back into an incomplete one.
pub open spec fn store_admits(existing: Option<RecoveryEnvelopeView>, e: RecoveryEnvelopeView) -> bool {
    match existing {
        None => true,
        Some(x) => {
            &&& !(x.document_seq > e.document_seq)
            &&& !(x.document_seq == e.document_seq && x.snapshot_seq > e.snapshot_seq)
            &&& !(x.disposition == ApplicationExitDispositionDto::ExplicitDiscard && e.document_seq
                <= x.document_seq && e.disposition
                != ApplicationExitDispositionDto::ExplicitDiscard)
            &&& !(x.disposition == ApplicationExitDispositionDto::CleanCompleted && e.document_seq
                == x.document_seq && e.snapshot_seq <= x.snapshot_seq && e.disposition
                == ApplicationExitDispositionDto::ExitIncomplete)
        },
    }
}

/// The decision of `FileRecoveryStore::replace`: whether `envelope` is
/// written over the checkpoint that the file holds (if it holds a readable
/// one).
pub fn store_admits_replace(
    existing: Option<&RecoveryEnvelopeDto>,
    envelope: &RecoveryEnvelopeDto,
) -> (r: bool)
    ensures
        r == store_admits(
            match existing {
                Some(x) => Some(x@),
                None => None,
            },
            envelope@,
        ),
{
    match existing {
        None => true,
        Some(existing) => {
            if existing.document_seq > envelope.document_seq {
                return false;
            }
            if existing.document_seq == envelope.document_seq && existing.snapshot_seq
                > envelope.snapshot_seq {
                return false;
            }
            if existing.disposition == ApplicationExitDispositionDto::ExplicitDiscard
                && envelope.document_seq <= existing.document_seq && envelope.disposition
                != ApplicationExitDispositionDto::ExplicitDiscard {
                return false;
            }
            if existing.disposition == ApplicationExitDispositionDto::CleanCompleted
                && envelope.document_seq == existing.document_seq && envelope.snapshot_seq
                <= existing.snapshot_seq && envelope.disposition
                == ApplicationExitDispositionDto::ExitIncomplete {
                return false;
            }
            true
        },
    }
}

/// A successful write changes the committed checkpoint only to the written
/// envelope, and only when that envelope is newer than the committed one (or
/// the same snapshot under another disposition); a late write of a discarded
/// document never replaces the commit.
pub proof fn committed_checkpoint_never_regresses(c: CoordinatorView, e: RecoveryEnvelopeView)
    ensures
        ({
            let c2 = finish_spec(c, e, true);
            &&& c2.last_committed != c.last_committed ==> c2.last_committed == Some(e)
            &&& c2.last_committed != c.last_committed ==> (c.last_committed matches Some(k) ==> (
            newer(e, k) || (e.document_seq == k.document_seq && e.snapshot_seq == k.snapshot_seq
                && e.disposition != k.disposition)))
            &&& (c.discarded_document_seq matches Some(d) && e.document_seq <= d && e.disposition
                != ApplicationExitDispositionDto::ExplicitDiscard) ==> c2.last_committed
                == c.last_committed
        }),
{
}

/// A change that is stale (older than the commit, or of a discarded
/// document) leaves the coordinator as it was.
pub proof fn stale_changes_are_ignored(c: CoordinatorView, e: RecoveryEnvelopeView, now_ms: u64)
    requires
        is_stale(c, e),
    ensures
        note_spec(c, e, now_ms) == c,
{
}

/// While a write is under way no other checkpoint is handed out.
pub proof fn one_write_at_a_time(c: CoordinatorView, now_ms: u64)
    requires
        c.writing is Some,
    ensures
        take_due_spec(c, now_ms) == (c, None::<RecoveryEnvelopeView>),
        retry_spec(c, now_ms) == (c, None::<RecoveryEnvelopeView>),
{
}

/// The first change noted on an idle coordinator is handed out exactly
/// `RECOVERY_WRITE_DELAY_MS` later, and not before.
pub proof fn first_change_due_within_delay(
    c: CoordinatorView,
    e: RecoveryEnvelopeView,
    now_ms: u64,
    later_ms: u64,
)
    requires
        c.writing is None,
        c.due_at_ms is None,
        !is_stale(c, e),
        now_ms + RECOVERY_WRITE_DELAY_MS <= u64::MAX,
    ensures
        take_due_spec(note_spec(c, e, now_ms), (now_ms + RECOVERY_WRITE_DELAY_MS) as u64).1 == Some(
            e,
        ),
        later_ms < now_ms + RECOVERY_WRITE_DELAY_MS ==> take_due_spec(
            note_spec(c, e, now_ms),
            later_ms,
        ).1 is None,
{
}

/// A further change replaces the pending checkpoint without moving the
/// deadline that is already set.
pub proof fn later_changes_keep_the_deadline(c: CoordinatorView, e: RecoveryEnvelopeView, now_ms: u64)
    requires
        c.due_at_ms is Some,
        !is_stale(c, e),
    ensures
        note_spec(c, e, now_ms).due_at_ms == c.due_at_ms,
        note_spec(c, e, now_ms).pending == Some(e),
{
}

/// A failed write keeps the last commit, reports the game as unprotected and
/// keeps a checkpoint pending, which a retry hands out again unless it has
/// become stale.
pub proof fn failed_write_stays_retryable(c: CoordinatorView, e: RecoveryEnvelopeView, now_ms: u64)
    requires
        c.writing == Some(e),
    ensures
        ({
            let c2 = finish_spec(c, e, false);
            &&& c2.last_committed == c.last_committed
            &&& c2.protection == ProtectionView::Unprotected(UNPROTECTED_WRITE_MESSAGE@)
            &&& c2.pending is Some
            &&& c2.writing is None
            &&& (retry_spec(c2, now_ms).1 is Some <==> !is_stale(c2, c2.pending->0))
            &&& (retry_spec(c2, now_ms).1 is Some ==> retry_spec(c2, now_ms).1 == c2.pending)
        }),
{
}

/// Every operation keeps a write in flight apart from a pending deadline.
pub proof fn operations_keep_coordinator_wf(
    c: CoordinatorView,
    e: RecoveryEnvelopeView,
    s: RecoverySnapshot,
    d: ApplicationExitDispositionDto,
    ok: bool,
    now_ms: u64,
)
    requires
        coordinator_wf(c),
    ensures
        coordinator_wf(initial_coordinator()),
        coordinator_wf(note_spec(c, e, now_ms)),
        coordinator_wf(take_due_spec(c, now_ms).0),
        coordinator_wf(finish_spec(c, e, ok)),
        coordinator_wf(flush_spec(c, s, d).0),
        coordinator_wf(retry_spec(c, now_ms).0),
        coordinator_wf(load_checkpoint_spec(c, e)),
        coordinator_wf(mark_discarded_spec(c, e)),
{
}

/// The checkpoint file never goes back to an older snapshot, never revives a
/// discarded document and never turns a clean exit back into an incomplete
/// one.
pub proof fn stored_checkpoint_never_regresses(x: RecoveryEnvelopeView, e: RecoveryEnvelopeView)
    requires
        store_admits(Some(x), e),
    ensures
        !newer(x, e),
        x.disposition == ApplicationExitDispositionDto::ExplicitDiscard && e.document_seq
            <= x.document_seq ==> e.disposition == ApplicationExitDispositionDto::ExplicitDiscard,
        x.disposition == ApplicationExitDispositionDto::CleanCompleted && e.document_seq
            == x.document_seq && e.snapshot_seq <= x.snapshot_seq ==> e.disposition
            != ApplicationExitDispositionDto::ExitIncomplete,
{
}

} // verus!
