//! The engine lifecycle: the readiness wait, the run being started, and the
//! operations that move the foreground engine between its phases.
use vstd::prelude::*;
use crate::catalog::SavedEngineProfile;
use crate::katago::{decimal, push_decimal_u64, AnalysisQuery};
use crate::model::{
    opt_string_view, EngineBackend, EngineCapabilitySnapshotDto, EngineFailureDto,
    EngineFailureKind, EngineOperationDto, EngineRunDto,
};
use crate::text::{push_char, str_eq, trim, trim_str};
use super::{admitting_spec, current_admitting_run, current_run_id, failure, phase_run, EnginePhase};
use super::routing::{contains_seq, contains_text, joined};

verus! {

broadcast use vstd::string::group_string_axioms;

/// What the readiness wait sees at one turn of its loop.
#[derive(Debug)]
pub enum ReadinessEvent {
    /// Another operation replaced the one waiting.
    Superseded,
    /// The readiness budget ran out.
    TimedOut,
    /// The engine process, or its output, is gone.
    ProcessLost,
    /// The engine closed its output.
    Closed,
    /// Reading the engine's output failed, with this error text.
    ReadError(String),
    /// No line yet.
    Idle,
    /// A line, with the response id it parsed to or the parse error text.
    Line { line: String, parsed: Result<String, String> },
}

/// What the readiness wait does next.
#[derive(Debug, Clone)]
pub enum ReadinessOutcome {
    /// The probe was answered.
    Ready,
    /// Another operation took over; the wait stops without a result.
    Abandon,
    /// Keep waiting.
    Wait,
    Fail(EngineFailureDto),
}

/// A readiness failure of `run` under operation `kind`.
pub open spec fn readiness_failure_of(
    f: EngineFailureDto,
    kind: EngineOperationDto,
    run: EngineRunDto,
    failure_kind: EngineFailureKind,
    message: Seq<char>,
    diagnostic: Option<Seq<char>>,
) -> bool {
    &&& f.operation == kind
    &&& f.kind == failure_kind
    &&& f.message@ == message
    &&& opt_string_view(f.run_id) == Some(run.run_id@)
    &&& opt_string_view(f.profile_id) == Some(run.profile_id@)
    &&& f.switch_id is None && f.job_id is None
    &&& opt_string_view(f.diagnostic_summary) == diagnostic
}

pub open spec fn closed_message() -> Seq<char> {
    "engine closed stdout before answering the readiness probe"@
}

/// The step of the readiness wait for `event`: a replaced operation ends
/// the wait, a timeout, a lost process, a closed or failing output fail it;
/// a blank or foreign line is skipped, the probe's answer makes the engine
/// ready, and an unparseable line that names the probe fails the wait.
pub open spec fn readiness_spec(
    event: ReadinessEvent,
    kind: EngineOperationDto,
    run: EngineRunDto,
    probe_id: Seq<char>,
    r: ReadinessOutcome,
) -> bool {
    match event {
        ReadinessEvent::Superseded => r is Abandon,
        ReadinessEvent::TimedOut => r matches ReadinessOutcome::Fail(f) && readiness_failure_of(
            f,
            kind,
            run,
            EngineFailureKind::Timeout,
            "engine readiness probe timed out"@,
            None,
        ),
        ReadinessEvent::ProcessLost => r matches ReadinessOutcome::Fail(f) && readiness_failure_of(
            f,
            kind,
            run,
            EngineFailureKind::Start,
            "engine process was lost before readiness"@,
            None,
        ),
        ReadinessEvent::Closed => r matches ReadinessOutcome::Fail(f) && readiness_failure_of(
            f,
            kind,
            run,
            EngineFailureKind::Readiness,
            closed_message(),
            None,
        ),
        ReadinessEvent::ReadError(e) => r matches ReadinessOutcome::Fail(f) && readiness_failure_of(
            f,
            kind,
            run,
            EngineFailureKind::Protocol,
            "failed to read engine stdout: "@ + e@,
            None,
        ),
        ReadinessEvent::Idle => r is Wait,
        ReadinessEvent::Line { line, parsed } => {
            let t = trim(line@);
            if t.len() == 0 {
                r is Wait
            } else {
                match parsed {
                    Ok(id) => if id@ == probe_id {
                        r is Ready
                    } else {
                        r is Wait
                    },
                    Err(e) => if contains_seq(t, probe_id) {
                        r matches ReadinessOutcome::Fail(f) && readiness_failure_of(
                            f,
                            kind,
                            run,
                            EngineFailureKind::Protocol,
                            "readiness probe response was not parseable: "@ + e@,
                            Some(t),
                        )
                    } else {
                        r is Wait
                    },
                }
            }
        },
    }
}

fn readiness_failure(
    kind: EngineOperationDto,
    run: &EngineRunDto,
    failure_kind: EngineFailureKind,
    message: String,
    diagnostic: Option<String>,
) -> (f: EngineFailureDto)
    ensures
        readiness_failure_of(f, kind, *run, failure_kind, message@, opt_string_view(diagnostic)),
{
    failure(
        kind,
        failure_kind,
        message,
        Some(run.run_id.as_str()),
        Some(run.profile_id.as_str()),
        diagnostic,
    )
}

/// One turn of the wait for an engine's readiness probe `probe_id`.
pub fn readiness_step(
    event: ReadinessEvent,
    kind: EngineOperationDto,
    run: &EngineRunDto,
    probe_id: &str,
) -> (r: ReadinessOutcome)
    ensures
        readiness_spec(event, kind, *run, probe_id@, r),
{
    match event {
        ReadinessEvent::Superseded => ReadinessOutcome::Abandon,
        ReadinessEvent::TimedOut => ReadinessOutcome::Fail(
            readiness_failure(
                kind,
                run,
                EngineFailureKind::Timeout,
                String::from_str("engine readiness probe timed out"),
                None,
            ),
        ),
        ReadinessEvent::ProcessLost => ReadinessOutcome::Fail(
            readiness_failure(
                kind,
                run,
                EngineFailureKind::Start,
                String::from_str("engine process was lost before readiness"),
                None,
            ),
        ),
        ReadinessEvent::Closed => ReadinessOutcome::Fail(
            readiness_failure(
                kind,
                run,
                EngineFailureKind::Readiness,
                String::from_str("engine closed stdout before answering the readiness probe"),
                None,
            ),
        ),
        ReadinessEvent::ReadError(e) => {
            let mut m = String::from_str("failed to read engine stdout: ");
            m.append(e.as_str());
            ReadinessOutcome::Fail(readiness_failure(kind, run, EngineFailureKind::Protocol, m, None))
        },
        ReadinessEvent::Idle => ReadinessOutcome::Wait,
        ReadinessEvent::Line { line, parsed } => {
            let t = trim_str(line.as_str());
            if t.as_str().is_empty() {
                return ReadinessOutcome::Wait;
            }
            match parsed {
                Ok(id) => {
                    if str_eq(id.as_str(), probe_id) {
                        ReadinessOutcome::Ready
                    } else {
                        ReadinessOutcome::Wait
                    }
                },
                Err(e) => {
                    if contains_text(t.as_str(), probe_id) {
                        let mut m = String::from_str("readiness probe response was not parseable: ");
                        m.append(e.as_str());
                        ReadinessOutcome::Fail(
                            readiness_failure(kind, run, EngineFailureKind::Protocol, m, Some(t)),
                        )
                    } else {
                        ReadinessOutcome::Wait
                    }
                },
            }
        },
    }
}

/// The numeral of an integer, with a minus sign when it is negative.
pub open spec fn int_text(n: int) -> Seq<char> {
    if n < 0 {
        seq!['-'] + decimal((-n) as nat)
    } else {
        decimal(n as nat)
    }
}

/// How `{:?}` writes an optional exit code.
pub open spec fn exit_code_text(code: Option<i32>) -> Seq<char> {
    match code {
        None => "None"@,
        Some(c) => "Some("@ + int_text(c as int) + ")"@,
    }
}

/// Appends `{:?}` of an optional exit code.
fn push_exit_code(s: &mut String, code: Option<i32>)
    ensures
        final(s)@ == old(s)@ + exit_code_text(code),
{
    match code {
        None => s.append("None"),
        Some(c) => {
            s.append("Some(");
            let ghost mid = s@;
            if c < 0 {
                push_char(s, '-');
                let magnitude: u64 = if c == i32::MIN {
                    2147483648u64
                } else {
                    (-c) as u64
                };
                assert(magnitude == -(c as int));
                push_decimal_u64(s, magnitude);
                assert(s@ =~= mid + int_text(c as int));
            } else {
                push_decimal_u64(s, c as u64);
            }
            s.append(")");
        },
    }
}

/// A run of the saved profile under the fresh id `run_id`, not yet ready.
pub fn starting_run(saved: &SavedEngineProfile, run_id: String) -> (r: EngineRunDto)
    ensures
        r == (EngineRunDto {
            run_id,
            profile_id: saved.profile_id,
            adapter_kind: saved.profile.backend,
            profile_snapshot: saved.profile,
            capability_snapshot: None,
        }),
{
    EngineRunDto {
        run_id,
        profile_id: saved.profile_id.clone(),
        adapter_kind: saved.profile.backend,
        profile_snapshot: saved.profile.clone(),
        capability_snapshot: None,
    }
}

/// The capabilities a run is admitted with once it answers its probe.
pub open spec fn ready_capabilities(admit_whole_game: bool) -> EngineCapabilitySnapshotDto {
    EngineCapabilitySnapshotDto {
        adapter_kind: EngineBackend::KataGoAnalysis,
        selected_node_analysis: true,
        whole_game_analysis: admit_whole_game,
        protocol_cancel: true,
    }
}

/// The komi of the readiness probe, 7.5, as `f32` bits.
pub const PROBE_KOMI_BITS: u32 = 0x40F0_0000;

/// The id of the readiness probe of run `run_id`.
pub open spec fn probe_id_text(run_id: Seq<char>) -> Seq<char> {
    "lifecycle-readiness-"@ + run_id
}

/// The query that probes whether the engine of run `run_id` is ready: the
/// empty 19×19 board under Chinese rules with komi 7.5, turn 0 only, at
/// most two visits, nothing else asked.
pub fn readiness_probe_query(run_id: &str) -> (r: AnalysisQuery)
    ensures
        r.id@ == probe_id_text(run_id@),
        r.moves@.len() == 0 && r.initial_stones@.len() == 0,
        r.rules@ == "chinese"@,
        r.komi_bits == PROBE_KOMI_BITS,
        r.board_x_size == 19 && r.board_y_size == 19,
        r.analyze_turns matches Some(t) && t@ == seq![0u32],
        r.max_visits == Some(2u32),
        r.include_ownership is None && r.include_policy is None,
        r.report_during_search_every_bits is None && r.override_settings is None,
{
    let mut id = String::from_str("lifecycle-readiness-");
    id.append(run_id);
    let turns = vec![0u32];
    AnalysisQuery {
        id,
        moves: Vec::new(),
        initial_stones: Vec::new(),
        rules: String::from_str("chinese"),
        komi_bits: PROBE_KOMI_BITS,
        board_x_size: 19,
        board_y_size: 19,
        analyze_turns: Some(turns),
        max_visits: Some(2),
        include_ownership: None,
        include_policy: None,
        report_during_search_every_bits: None,
        override_settings: None,
    }
}

/// One engine asset checked before a run starts: its label, its path (empty
/// when none is configured), whether the engine needs it and whether it
/// exists.
#[derive(Debug, Clone)]
pub struct EngineAssetCheck {
    pub label: String,
    pub path: String,
    pub required: bool,
    pub exists: bool,
}

/// How a missing asset is named: its label, with its path in parentheses
/// when it has one.
pub open spec fn asset_text(c: EngineAssetCheck) -> Seq<char> {
    if c.path@.len() == 0 {
        c.label@
    } else {
        c.label@ + " ("@ + c.path@ + ")"@
    }
}

/// The required assets that do not exist, in order.
pub open spec fn missing_assets(checks: Seq<EngineAssetCheck>) -> Seq<EngineAssetCheck> {
    checks.filter(|c: EngineAssetCheck| c.required && !c.exists)
}

/// The missing assets, named and separated by commas.
pub open spec fn missing_summary(checks: Seq<EngineAssetCheck>) -> Seq<char> {
    joined(missing_assets(checks).map_values(|c: EngineAssetCheck| asset_text(c)), ", "@)
}

fn asset_name(c: &EngineAssetCheck) -> (r: String)
    ensures
        r@ == asset_text(*c),
{
    if c.path.as_str().is_empty() {
        c.label.clone()
    } else {
        let mut m = c.label.clone();
        m.append(" (");
        m.append(c.path.as_str());
        m.append(")");
        m
    }
}

/// The failure with which a run of `operation` cannot start because
/// required assets are missing, or `None` when none is: an asset failure
/// of the run and its profile naming every missing asset.
pub fn missing_assets_failure(
    operation: EngineOperationDto,
    run: &EngineRunDto,
    checks: &Vec<EngineAssetCheck>,
) -> (r: Option<EngineFailureDto>)
    ensures
        (r is None) == (missing_assets(checks@).len() == 0),
        r matches Some(f) ==> {
            &&& f.operation == operation && f.kind == EngineFailureKind::Asset
            &&& f.message@ == "required engine assets are missing: "@ + missing_summary(checks@)
            &&& opt_string_view(f.run_id) == Some(run.run_id@)
            &&& opt_string_view(f.profile_id) == Some(run.profile_id@)
            &&& f.diagnostic_summary matches Some(d) && d@ == missing_summary(checks@)
            &&& f.switch_id is None && f.job_id is None
        },
{
    let ghost pred = |c: EngineAssetCheck| c.required && !c.exists;
    let mut summary = String::new();
    let mut count: usize = 0;
    let mut i: usize = 0;
    while i < checks.len()
        invariant
            i <= checks.len(),
            pred == (|c: EngineAssetCheck| c.required && !c.exists),
            count == checks@.take(i as int).filter(pred).len(),
            summary@ == joined(
                checks@.take(i as int).filter(pred).map_values(|c: EngineAssetCheck| asset_text(c)),
                ", "@,
            ),
        decreases checks.len() - i,
    {
        let ghost f0 = checks@.take(i as int).filter(pred);
        assert(checks@.take(i + 1).drop_last() =~= checks@.take(i as int));
        assert(checks@.take(i + 1).last() == checks@[i as int]);
        assert(checks@.take(i + 1).filter(pred) == if pred(checks@[i as int]) {
            f0.push(checks@[i as int])
        } else {
            f0
        }) by {
            reveal(Seq::filter);
        }
        let c = &checks[i];
        if c.required && !c.exists {
            let name = asset_name(c);
            let ghost parts0 = f0.map_values(|c: EngineAssetCheck| asset_text(c));
            let ghost parts1 = f0.push(checks@[i as int]).map_values(
                |c: EngineAssetCheck| asset_text(c),
            );
            assert(parts1.drop_last() =~= parts0);
            assert(parts1.last() == asset_text(checks@[i as int]));
            if count > 0 {
                summary.append(", ");
            }
            summary.append(name.as_str());
            assert(summary@ =~= joined(parts1, ", "@));
            count = count + 1;
        }
        i += 1;
    }
    assert(checks@.take(checks.len() as int) =~= checks@);
    if count == 0 {
        return None;
    }
    let mut message = String::from_str("required engine assets are missing: ");
    message.append(summary.as_str());
    Some(
        failure(
            operation,
            EngineFailureKind::Asset,
            message,
            Some(run.run_id.as_str()),
            Some(run.profile_id.as_str()),
            Some(summary),
        ),
    )
}

/// The foreground engine's lifecycle: its phase, the number of the current
/// operation (each start, stop, restart and switch takes the next one, and
/// work of an older operation no longer counts), the kind of that operation
/// and the number of the last switch.
#[derive(Debug, Clone)]
pub struct EngineLifecycle {
    pub phase: EnginePhase,
    pub operation: u64,
    pub operation_kind: EngineOperationDto,
    pub switch_seq: u64,
}

pub open spec fn not_found_text(profile_id: Seq<char>) -> Seq<char> {
    "saved engine profile was not found: "@ + profile_id
}

pub open spec fn backend_text() -> Seq<char> {
    "R3 Foreground Engine Run only proves KataGoAnalysis"@
}

/// A failure `f` of `operation`, with the given kind, message and scope.
pub open spec fn failure_is(
    f: EngineFailureDto,
    operation: EngineOperationDto,
    kind: EngineFailureKind,
    message: Seq<char>,
    run_id: Option<Seq<char>>,
    profile_id: Option<Seq<char>>,
) -> bool {
    &&& f.operation == operation
    &&& f.kind == kind
    &&& f.message@ == message
    &&& opt_string_view(f.run_id) == run_id
    &&& opt_string_view(f.profile_id) == profile_id
    &&& f.switch_id is None && f.job_id is None && f.diagnostic_summary is None
}

pub open spec fn phase_run_id(phase: EnginePhase) -> Option<Seq<char>> {
    match phase_run(phase) {
        Some(run) => Some(run.run_id@),
        None => None,
    }
}

/// What an unexpected engine exit leads to.
#[derive(Debug, Clone)]
pub enum ExitStep {
    Ignore,
    /// The start attempt fails with this failure.
    FailAttempt(EngineFailureDto),
    /// The run is now in error with this failure.
    EnteredError(EngineFailureDto),
}

/// The phase is starting the run `run_id`.
pub open spec fn is_starting(phase: EnginePhase, run_id: Seq<char>) -> bool {
    phase matches EnginePhase::Starting(current) && current.run_id@ == run_id
}

/// The phase is switching to the candidate run `run_id`.
pub open spec fn is_switching_to(phase: EnginePhase, run_id: Seq<char>) -> bool {
    phase matches EnginePhase::Switching { candidate, .. } && candidate.run_id@ == run_id
}

impl EngineLifecycle {
    /// No engine, no failure, no operation yet.
    pub fn new() -> (r: Self)
        ensures
            r.phase == (EnginePhase::NoEngine { failure: None }),
            r.operation == 0 && r.switch_seq == 0,
            r.operation_kind == EngineOperationDto::Start,
    {
        EngineLifecycle {
            phase: EnginePhase::NoEngine { failure: None },
            operation: 0,
            operation_kind: EngineOperationDto::Start,
            switch_seq: 0,
        }
    }

    /// Shows `published` on the no-engine phase; says whether there was no
    /// engine to show it on.
    pub fn record_no_engine_failure(&mut self, published: EngineFailureDto) -> (r: bool)
        ensures
            r == (old(self).phase is NoEngine),
            r ==> *final(self) == (EngineLifecycle {
                phase: EnginePhase::NoEngine { failure: Some(published) },
                ..*old(self)
            }),
            !r ==> *final(self) == *old(self),
    {
        if matches!(self.phase, EnginePhase::NoEngine { .. }) {
            self.phase = EnginePhase::NoEngine { failure: Some(published) };
            true
        } else {
            false
        }
    }

    /// Starts the saved profile under operation `kind` (a start or an
    /// autoload), as the run `run_id`: a missing profile or another backend
    /// is refused and shown on the no-engine phase; a start while an engine
    /// exists is refused; otherwise the next operation starts the run.
    pub fn begin_start(
        &mut self,
        kind: EngineOperationDto,
        profile_id: &str,
        saved: Option<SavedEngineProfile>,
        run_id: String,
    ) -> (r: Result<(u64, EngineRunDto), EngineFailureDto>)
        requires
            old(self).operation < u64::MAX,
        ensures
            match saved {
                None => r matches Err(f) && failure_is(
                    f,
                    kind,
                    EngineFailureKind::ProfileNotFound,
                    not_found_text(profile_id@),
                    None,
                    Some(profile_id@),
                ) && *final(self) == (if old(self).phase is NoEngine {
                    EngineLifecycle {
                        phase: EnginePhase::NoEngine { failure: Some(f) },
                        ..*old(self)
                    }
                } else {
                    *old(self)
                }),
                Some(p) => if p.profile.backend != EngineBackend::KataGoAnalysis {
                    r matches Err(f) && failure_is(
                        f,
                        kind,
                        EngineFailureKind::UnsupportedCapability,
                        backend_text(),
                        None,
                        Some(p.profile_id@),
                    ) && *final(self) == (if old(self).phase is NoEngine {
                        EngineLifecycle {
                            phase: EnginePhase::NoEngine { failure: Some(f) },
                            ..*old(self)
                        }
                    } else {
                        *old(self)
                    })
                } else if !(old(self).phase is NoEngine) {
                    r matches Err(f) && failure_is(
                        f,
                        kind,
                        EngineFailureKind::InvalidState,
                        "Start requires an authoritative No-engine snapshot"@,
                        phase_run_id(old(self).phase),
                        Some(profile_id@),
                    ) && *final(self) == *old(self)
                } else {
                    r matches Ok(x) && x.0 == old(self).operation + 1 && x.1 == (EngineRunDto {
                        run_id,
                        profile_id: p.profile_id,
                        adapter_kind: p.profile.backend,
                        profile_snapshot: p.profile,
                        capability_snapshot: None,
                    }) && *final(self) == (EngineLifecycle {
                        phase: EnginePhase::Starting(x.1),
                        operation: x.0,
                        operation_kind: kind,
                        ..*old(self)
                    })
                },
            },
    {
        let saved = match saved {
            Some(saved) => saved,
            None => {
                let mut m = String::from_str("saved engine profile was not found: ");
                m.append(profile_id);
                let published = failure(
                    kind,
                    EngineFailureKind::ProfileNotFound,
                    m,
                    None,
                    Some(profile_id),
                    None,
                );
                self.record_no_engine_failure(published.clone());
                return Err(published);
            },
        };
        if saved.profile.backend != EngineBackend::KataGoAnalysis {
            let published = failure(
                kind,
                EngineFailureKind::UnsupportedCapability,
                String::from_str("R3 Foreground Engine Run only proves KataGoAnalysis"),
                None,
                Some(saved.profile_id.as_str()),
                None,
            );
            self.record_no_engine_failure(published.clone());
            return Err(published);
        }
        if !matches!(self.phase, EnginePhase::NoEngine { .. }) {
            let current = current_run_id(&self.phase);
            return Err(
                match &current {
                    Some(id) => failure(
                        kind,
                        EngineFailureKind::InvalidState,
                        String::from_str("Start requires an authoritative No-engine snapshot"),
                        Some(id.as_str()),
                        Some(profile_id),
                        None,
                    ),
                    None => failure(
                        kind,
                        EngineFailureKind::InvalidState,
                        String::from_str("Start requires an authoritative No-engine snapshot"),
                        None,
                        Some(profile_id),
                        None,
                    ),
                },
            );
        }
        self.operation = self.operation + 1;
        self.operation_kind = kind;
        let run = starting_run(&saved, run_id);
        self.phase = EnginePhase::Starting(run.clone());
        Ok((self.operation, run))
    }

    /// Starts stopping whatever engine there is, under the next operation;
    /// `None` when there is none.
    pub fn begin_stop(&mut self) -> (r: Option<u64>)
        requires
            old(self).operation < u64::MAX,
        ensures
            match phase_run(old(self).phase) {
                None => r is None && *final(self) == *old(self),
                Some(run) => r == Some((old(self).operation + 1) as u64) && *final(self) == (
                EngineLifecycle {
                    phase: EnginePhase::Stopping(run),
                    operation: (old(self).operation + 1) as u64,
                    ..*old(self)
                }),
            },
    {
        let run = match &self.phase {
            EnginePhase::NoEngine { .. } => {
                return None;
            },
            EnginePhase::Starting(run) => run.clone(),
            EnginePhase::Ready(run) => run.clone(),
            EnginePhase::Stopping(run) => run.clone(),
            EnginePhase::Switching { primary, .. } => primary.clone(),
            EnginePhase::Error { run, .. } => run.clone(),
        };
        self.operation = self.operation + 1;
        self.phase = EnginePhase::Stopping(run);
        Some(self.operation)
    }

    /// Starts a restart of a ready or failed run: it stops under the next
    /// operation, and its profile is started again afterwards.
    pub fn begin_restart(&mut self) -> (r: Result<(u64, String), EngineFailureDto>)
        requires
            old(self).operation < u64::MAX,
        ensures
            match old(self).phase {
                EnginePhase::Ready(run) => r matches Ok(x) && x.0 == old(self).operation + 1 && x.1
                    == run.profile_id && *final(self) == (EngineLifecycle {
                    phase: EnginePhase::Stopping(run),
                    operation: x.0,
                    ..*old(self)
                }),
                EnginePhase::Error { run, .. } => r matches Ok(x) && x.0 == old(self).operation + 1
                    && x.1 == run.profile_id && *final(self) == (EngineLifecycle {
                    phase: EnginePhase::Stopping(run),
                    operation: x.0,
                    ..*old(self)
                }),
                _ => r matches Err(f) && failure_is(
                    f,
                    EngineOperationDto::Restart,
                    EngineFailureKind::InvalidState,
                    "Restart requires a Ready or Error Foreground Engine Run"@,
                    phase_run_id(old(self).phase),
                    None,
                ) && *final(self) == *old(self),
            },
    {
        let run = match &self.phase {
            EnginePhase::Ready(run) => run.clone(),
            EnginePhase::Error { run, .. } => run.clone(),
            _ => {
                let current = current_run_id(&self.phase);
                return Err(
                    match &current {
                        Some(id) => failure(
                            EngineOperationDto::Restart,
                            EngineFailureKind::InvalidState,
                            String::from_str("Restart requires a Ready or Error Foreground Engine Run"),
                            Some(id.as_str()),
                            None,
                            None,
                        ),
                        None => failure(
                            EngineOperationDto::Restart,
                            EngineFailureKind::InvalidState,
                            String::from_str("Restart requires a Ready or Error Foreground Engine Run"),
                            None,
                            None,
                            None,
                        ),
                    },
                );
            },
        };
        self.operation = self.operation + 1;
        let profile_id = run.profile_id.clone();
        self.phase = EnginePhase::Stopping(run);
        Ok((self.operation, profile_id))
    }

    /// Admits the starting run `run` of operation `operation` as ready, with
    /// its capabilities; a stale operation or another run changes nothing.
    pub fn admit_ready(&mut self, operation: u64, run: &EngineRunDto, admit_whole_game: bool) -> (r:
        bool)
        ensures
            r == (operation == old(self).operation && is_starting(old(self).phase, run.run_id@)),
            r ==> *final(self) == (EngineLifecycle {
                phase: EnginePhase::Ready(
                    EngineRunDto {
                        capability_snapshot: Some(ready_capabilities(admit_whole_game)),
                        ..*run
                    },
                ),
                ..*old(self)
            }),
            !r ==> *final(self) == *old(self),
    {
        if self.operation != operation {
            return false;
        }
        let starting = match &self.phase {
            EnginePhase::Starting(current) => str_eq(current.run_id.as_str(), run.run_id.as_str()),
            _ => false,
        };
        if !starting {
            return false;
        }
        let mut ready = run.clone();
        ready.capability_snapshot = Some(
            EngineCapabilitySnapshotDto {
                adapter_kind: EngineBackend::KataGoAnalysis,
                selected_node_analysis: true,
                whole_game_analysis: admit_whole_game,
                protocol_cancel: true,
            },
        );
        self.phase = EnginePhase::Ready(ready);
        true
    }

    /// Makes the switch candidate `run` of operation `operation` the ready
    /// run, with its capabilities; gives the id of the primary run it
    /// replaces, whose jobs end. A stale operation or another candidate
    /// changes nothing.
    pub fn promote_candidate(
        &mut self,
        operation: u64,
        run: &EngineRunDto,
        admit_whole_game: bool,
    ) -> (r: Option<String>)
        ensures
            r is Some == (operation == old(self).operation && is_switching_to(
                old(self).phase,
                run.run_id@,
            )),
            r matches Some(id) ==> id@ == old(self).phase->Switching_primary.run_id@ && *final(self)
                == (EngineLifecycle {
                phase: EnginePhase::Ready(
                    EngineRunDto {
                        capability_snapshot: Some(ready_capabilities(admit_whole_game)),
                        ..*run
                    },
                ),
                ..*old(self)
            }),
            r is None ==> *final(self) == *old(self),
    {
        if self.operation != operation {
            return None;
        }
        let primary_id = match &self.phase {
            EnginePhase::Switching { primary, candidate, .. } => {
                if str_eq(candidate.run_id.as_str(), run.run_id.as_str()) {
                    Some(primary.run_id.clone())
                } else {
                    None
                }
            },
            _ => None,
        };
        if primary_id.is_none() {
            return None;
        }
        let mut ready = run.clone();
        ready.capability_snapshot = Some(
            EngineCapabilitySnapshotDto {
                adapter_kind: EngineBackend::KataGoAnalysis,
                selected_node_analysis: true,
                whole_game_analysis: admit_whole_game,
                protocol_cancel: true,
            },
        );
        self.phase = EnginePhase::Ready(ready);
        primary_id
    }

    /// Abandons the switch `switch_id` to candidate `run` of operation
    /// `operation`: the primary run is ready again and the failure is
    /// scoped to the switch. A stale operation, another candidate or another
    /// switch changes nothing.
    pub fn fail_switch_candidate(
        &mut self,
        operation: u64,
        run: &EngineRunDto,
        switch_id: &str,
        published: EngineFailureDto,
    ) -> (r: Option<EngineFailureDto>)
        ensures
            r is Some == (operation == old(self).operation && is_switching_to(
                old(self).phase,
                run.run_id@,
            ) && old(self).phase->Switching_switch_id@ == switch_id@),
            r matches Some(f) ==> f == (EngineFailureDto { switch_id: f.switch_id, ..published })
                && opt_string_view(f.switch_id) == Some(switch_id@) && *final(self) == (
            EngineLifecycle {
                phase: EnginePhase::Ready(old(self).phase->Switching_primary),
                ..*old(self)
            }),
            r is None ==> *final(self) == *old(self),
    {
        if self.operation != operation {
            return None;
        }
        let primary = match &self.phase {
            EnginePhase::Switching { primary, candidate, switch_id: current } => {
                if str_eq(candidate.run_id.as_str(), run.run_id.as_str()) && str_eq(
                    current.as_str(),
                    switch_id,
                ) {
                    Some(primary.clone())
                } else {
                    None
                }
            },
            _ => None,
        };
        match primary {
            Some(primary) => {
                self.phase = EnginePhase::Ready(primary);
                let mut f = published;
                f.switch_id = Some(String::from_str(switch_id));
                Some(f)
            },
            None => None,
        }
    }

    /// Ends the attempt of operation `operation` with `published` shown on
    /// the no-engine phase; a stale operation changes nothing.
    pub fn fail_attempt(&mut self, operation: u64, published: EngineFailureDto) -> (r: bool)
        ensures
            r == (operation == old(self).operation),
            r ==> *final(self) == (EngineLifecycle {
                phase: EnginePhase::NoEngine { failure: Some(published) },
                ..*old(self)
            }),
            !r ==> *final(self) == *old(self),
    {
        if self.operation != operation {
            return false;
        }
        self.phase = EnginePhase::NoEngine { failure: Some(published) };
        true
    }

    /// Settles operation `operation` on no engine once its processes are
    /// gone; a stale operation or a live process changes nothing.
    pub fn force_no_engine(&mut self, operation: u64, processes_alive: bool) -> (r: bool)
        ensures
            r == (operation == old(self).operation && !processes_alive),
            r ==> *final(self) == (EngineLifecycle {
                phase: EnginePhase::NoEngine { failure: None },
                ..*old(self)
            }),
            !r ==> *final(self) == *old(self),
    {
        if self.operation != operation || processes_alive {
            return false;
        }
        self.phase = EnginePhase::NoEngine { failure: None };
        true
    }

    /// A failed process cleanup while stopping leaves the stopping run in
    /// error, with a teardown timeout naming `error`.
    pub fn cleanup_failed(&mut self, error: &str) -> (r: Option<EngineFailureDto>)
        ensures
            match old(self).phase {
                EnginePhase::Stopping(run) => r matches Some(f) && failure_is(
                    f,
                    EngineOperationDto::Teardown,
                    EngineFailureKind::Timeout,
                    "engine process cleanup failed: "@ + error@,
                    Some(run.run_id@),
                    None,
                ) && *final(self) == (EngineLifecycle {
                    phase: EnginePhase::Error { run, failure: f },
                    ..*old(self)
                }),
                _ => r is None && *final(self) == *old(self),
            },
    {
        let run = match &self.phase {
            EnginePhase::Stopping(run) => run.clone(),
            _ => {
                return None;
            },
        };
        let mut m = String::from_str("engine process cleanup failed: ");
        m.append(error);
        let f = failure(
            EngineOperationDto::Teardown,
            EngineFailureKind::Timeout,
            m,
            Some(run.run_id.as_str()),
            None,
            None,
        );
        self.phase = EnginePhase::Error { run, failure: f.clone() };
        Some(f)
    }

    /// Starts a switch from the ready run to the saved profile, as the
    /// candidate run `run_id`, under the next operation and switch number;
    /// `None` when the ready run already uses that profile.
    pub fn begin_switch(
        &mut self,
        profile_id: &str,
        saved: Option<SavedEngineProfile>,
        run_id: String,
    ) -> (r: Result<Option<(u64, EngineRunDto, String)>, EngineFailureDto>)
        requires
            old(self).operation < u64::MAX,
            old(self).switch_seq < u64::MAX,
        ensures
            match saved {
                None => r matches Err(f) && failure_is(
                    f,
                    EngineOperationDto::Switch,
                    EngineFailureKind::ProfileNotFound,
                    not_found_text(profile_id@),
                    None,
                    Some(profile_id@),
                ) && *final(self) == *old(self),
                Some(p) => if p.profile.backend != EngineBackend::KataGoAnalysis {
                    r matches Err(f) && failure_is(
                        f,
                        EngineOperationDto::Switch,
                        EngineFailureKind::UnsupportedCapability,
                        backend_text(),
                        None,
                        Some(p.profile_id@),
                    ) && *final(self) == *old(self)
                } else {
                    match admitting_spec(old(self).phase) {
                        None => r matches Err(f) && failure_is(
                            f,
                            EngineOperationDto::Switch,
                            EngineFailureKind::InvalidState,
                            "Switch requires a Ready Foreground Engine Run"@,
                            phase_run_id(old(self).phase),
                            Some(profile_id@),
                        ) && *final(self) == *old(self),
                        Some(primary) => if primary.profile_id@ == profile_id@ {
                            r == Ok::<Option<(u64, EngineRunDto, String)>, EngineFailureDto>(None)
                                && *final(self) == *old(self)
                        } else {
                            r matches Ok(Some(x)) && x.0 == old(self).operation + 1 && x.1 == (
                            EngineRunDto {
                                run_id,
                                profile_id: p.profile_id,
                                adapter_kind: p.profile.backend,
                                profile_snapshot: p.profile,
                                capability_snapshot: None,
                            }) && x.2@ == decimal((old(self).switch_seq + 1) as nat) && *final(self)
                                == (EngineLifecycle {
                                phase: EnginePhase::Switching {
                                    primary,
                                    candidate: x.1,
                                    switch_id: x.2,
                                },
                                operation: x.0,
                                operation_kind: EngineOperationDto::Switch,
                                switch_seq: (old(self).switch_seq + 1) as u64,
                            })
                        },
                    }
                },
            },
    {
        let saved = match saved {
            Some(saved) => saved,
            None => {
                let mut m = String::from_str("saved engine profile was not found: ");
                m.append(profile_id);
                return Err(
                    failure(
                        EngineOperationDto::Switch,
                        EngineFailureKind::ProfileNotFound,
                        m,
                        None,
                        Some(profile_id),
                        None,
                    ),
                );
            },
        };
        if saved.profile.backend != EngineBackend::KataGoAnalysis {
            return Err(
                failure(
                    EngineOperationDto::Switch,
                    EngineFailureKind::UnsupportedCapability,
                    String::from_str("R3 Foreground Engine Run only proves KataGoAnalysis"),
                    None,
                    Some(saved.profile_id.as_str()),
                    None,
                ),
            );
        }
        let primary = match current_admitting_run(&self.phase) {
            Some(primary) => primary,
            None => {
                let current = current_run_id(&self.phase);
                return Err(
                    match &current {
                        Some(id) => failure(
                            EngineOperationDto::Switch,
                            EngineFailureKind::InvalidState,
                            String::from_str("Switch requires a Ready Foreground Engine Run"),
                            Some(id.as_str()),
                            Some(profile_id),
                            None,
                        ),
                        None => failure(
                            EngineOperationDto::Switch,
                            EngineFailureKind::InvalidState,
                            String::from_str("Switch requires a Ready Foreground Engine Run"),
                            None,
                            Some(profile_id),
                            None,
                        ),
                    },
                );
            },
        };
        if str_eq(primary.profile_id.as_str(), profile_id) {
            return Ok(None);
        }
        self.operation = self.operation + 1;
        self.operation_kind = EngineOperationDto::Switch;
        self.switch_seq = self.switch_seq + 1;
        let mut switch_id = String::new();
        push_decimal_u64(&mut switch_id, self.switch_seq);
        assert(switch_id@ =~= decimal(self.switch_seq as nat));
        let candidate = starting_run(&saved, run_id);
        self.phase = EnginePhase::Switching {
            primary,
            candidate: candidate.clone(),
            switch_id: switch_id.clone(),
        };
        Ok(Some((self.operation, candidate, switch_id)))
    }

    /// The engine process of run `run_id` exited with `exit_code` during
    /// operation `operation`: a starting run fails its attempt (the failure
    /// is given back for `fail_attempt`); a ready or primary run enters the
    /// error phase, the primary under the next operation.
    pub fn unexpected_exit(&mut self, operation: u64, run_id: &str, exit_code: Option<i32>) -> (r:
        ExitStep)
        requires
            old(self).operation < u64::MAX,
        ensures
            match old(self).phase {
                EnginePhase::Starting(run) if run.run_id@ == run_id@ => if operation
                    == old(self).operation {
                    r matches ExitStep::FailAttempt(f) && failure_is(
                        f,
                        old(self).operation_kind,
                        if exit_code.unwrap_or(0) == 0 {
                            EngineFailureKind::Readiness
                        } else {
                            EngineFailureKind::NonzeroExit
                        },
                        "engine exited during start; exit_code="@ + exit_code_text(exit_code),
                        Some(run_id@),
                        Some(run.profile_id@),
                    ) && *final(self) == *old(self)
                } else {
                    r is Ignore && *final(self) == *old(self)
                },
                EnginePhase::Ready(run) if run.run_id@ == run_id@ => r matches ExitStep::EnteredError(
                    f,
                ) && failure_is(
                    f,
                    EngineOperationDto::UnexpectedExit,
                    EngineFailureKind::NonzeroExit,
                    "engine process exited unexpectedly; exit_code="@ + exit_code_text(exit_code),
                    Some(run.run_id@),
                    Some(run.profile_id@),
                ) && *final(self) == (EngineLifecycle {
                    phase: EnginePhase::Error { run, failure: f },
                    ..*old(self)
                }),
                EnginePhase::Switching { primary, .. } if primary.run_id@ == run_id@ => r matches ExitStep::EnteredError(
                    f,
                ) && failure_is(
                    f,
                    EngineOperationDto::UnexpectedExit,
                    EngineFailureKind::NonzeroExit,
                    "engine process exited unexpectedly; exit_code="@ + exit_code_text(exit_code),
                    Some(primary.run_id@),
                    Some(primary.profile_id@),
                ) && *final(self) == (EngineLifecycle {
                    phase: EnginePhase::Error { run: primary, failure: f },
                    operation: (old(self).operation + 1) as u64,
                    ..*old(self)
                }),
                _ => r is Ignore && *final(self) == *old(self),
            },
    {
        let (run, starting, switching) = match &self.phase {
            EnginePhase::Starting(run) => (run.clone(), true, false),
            EnginePhase::Ready(run) => (run.clone(), false, false),
            EnginePhase::Switching { primary, .. } => (primary.clone(), false, true),
            _ => {
                return ExitStep::Ignore;
            },
        };
        if !str_eq(run.run_id.as_str(), run_id) {
            return ExitStep::Ignore;
        }
        if starting {
            if self.operation != operation {
                return ExitStep::Ignore;
            }
            let mut m = String::from_str("engine exited during start; exit_code=");
            push_exit_code(&mut m, exit_code);
            let kind = match exit_code {
                Some(c) => if c == 0 {
                    EngineFailureKind::Readiness
                } else {
                    EngineFailureKind::NonzeroExit
                },
                None => EngineFailureKind::Readiness,
            };
            return ExitStep::FailAttempt(
                failure(
                    self.operation_kind,
                    kind,
                    m,
                    Some(run_id),
                    Some(run.profile_id.as_str()),
                    None,
                ),
            );
        }
        if switching {
            self.operation = self.operation + 1;
        }
        let mut m = String::from_str("engine process exited unexpectedly; exit_code=");
        push_exit_code(&mut m, exit_code);
        let f = failure(
            EngineOperationDto::UnexpectedExit,
            EngineFailureKind::NonzeroExit,
            m,
            Some(run.run_id.as_str()),
            Some(run.profile_id.as_str()),
            None,
        );
        self.phase = EnginePhase::Error { run, failure: f.clone() };
        ExitStep::EnteredError(f)
    }

    /// Whether the profile may be deleted: not while a run of it exists.
    pub fn assert_profile_deletable(&self, profile_id: &str) -> (r: Result<(), EngineFailureDto>)
        ensures
            match phase_run(self.phase) {
                Some(run) if run.profile_id@ == profile_id@ => r matches Err(f) && failure_is(
                    f,
                    EngineOperationDto::DeleteProfile,
                    EngineFailureKind::ProfileInUse,
                    "an active Foreground Engine Run still holds this profile identity"@,
                    Some(run.run_id@),
                    Some(profile_id@),
                ),
                _ => r is Ok,
            },
    {
        let run = match &self.phase {
            EnginePhase::NoEngine { .. } => {
                return Ok(());
            },
            EnginePhase::Starting(run) => run,
            EnginePhase::Ready(run) => run,
            EnginePhase::Stopping(run) => run,
            EnginePhase::Switching { primary, .. } => primary,
            EnginePhase::Error { run, .. } => run,
        };
        if str_eq(run.profile_id.as_str(), profile_id) {
            return Err(
                failure(
                    EngineOperationDto::DeleteProfile,
                    EngineFailureKind::ProfileInUse,
                    String::from_str(
                        "an active Foreground Engine Run still holds this profile identity",
                    ),
                    Some(run.run_id.as_str()),
                    Some(profile_id),
                    None,
                ),
            );
        }
        Ok(())
    }
}

} // verus!
