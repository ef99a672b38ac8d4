//! Shared data carried between the engine manager, the game workspace and the
//! desktop shell.
use vstd::prelude::*;

verus! {

/// A 128-bit identifier of a game, a node or an analysis job.
#[verifier::external_type_specification]
#[verifier::external_body]
pub struct ExUuid(uuid::Uuid);

#[derive(Debug, Clone, Copy, PartialEq, Eq, Structural)]
pub enum PlayerColor {
    Black,
    White,
}

impl PlayerColor {
    /// The other colour.
    pub fn opponent(self) -> (r: Self)
        ensures
            r != self,
    {
        match self {
            PlayerColor::Black => PlayerColor::White,
            PlayerColor::White => PlayerColor::Black,
        }
    }
}

#[derive(Debug, Clone, Copy, PartialEq, Eq, Hash, Structural)]
pub struct PointDto {
    pub x: u8,
    pub y: u8,
}

#[derive(Debug, Clone, Copy, PartialEq, Eq, Structural)]
pub enum MoveVertex {
    Point(PointDto),
    Pass,
}

#[derive(Debug, Clone, Copy, PartialEq, Eq, Structural)]
pub struct MoveDto {
    pub color: PlayerColor,
    pub vertex: MoveVertex,
    pub move_number: u32,
}

#[derive(Debug, Clone, Copy, PartialEq, Eq, Structural)]
pub struct StoneDto {
    pub x: u8,
    pub y: u8,
    pub color: PlayerColor,
}

#[derive(Debug, Clone, PartialEq, Eq)]
pub struct PositionDto {
    pub board_size: u8,
    pub move_number: u32,
    pub to_play: PlayerColor,
    pub stones: Vec<StoneDto>,
    pub captures_black: u32,
    pub captures_white: u32,
    pub last_move: Option<MoveDto>,
    pub errors: Vec<String>,
}

/// The child indices that lead from the root of a game tree to a node.
#[derive(Debug, PartialEq, Eq, Default)]
pub struct NodePath {
    pub indices: Vec<u32>,
}

impl View for NodePath {
    type V = Seq<u32>;

    open spec fn view(&self) -> Seq<u32> {
        self.indices@
    }
}

impl Clone for NodePath {
    fn clone(&self) -> (r: Self)
        ensures
            r@ == self@,
    {
        let indices = self.indices.clone();
        assert(indices@ =~= self.indices@);
        NodePath { indices }
    }
}

impl NodePath {
    /// Whether two paths lead to the same node.
    pub fn same_as(&self, other: &NodePath) -> (r: bool)
        ensures
            r == (self@ == other@),
    {
        if self.indices.len() != other.indices.len() {
            return false;
        }
        let mut i: usize = 0;
        while i < self.indices.len()
            invariant
                i <= self.indices.len(),
                self.indices.len() == other.indices.len(),
                forall|j: int| 0 <= j < i ==> self@[j] == other@[j],
            decreases self.indices.len() - i,
        {
            if self.indices[i] != other.indices[i] {
                return false;
            }
            i += 1;
        }
        assert(self@ =~= other@);
        true
    }
}

#[derive(Debug, Clone, PartialEq, Eq)]
pub struct SgfPropertyDto {
    pub key: String,
    pub values: Vec<String>,
}

#[derive(Debug, PartialEq, Eq)]
pub struct SgfTreeNodeDto {
    pub properties: Vec<SgfPropertyDto>,
    pub children: Vec<SgfTreeNodeDto>,
}

impl Clone for SgfTreeNodeDto {
    fn clone(&self) -> (r: Self)
        decreases self,
    {
        let mut children: Vec<SgfTreeNodeDto> = Vec::new();
        let mut i: usize = 0;
        while i < self.children.len()
            invariant
                i <= self.children.len(),
            decreases self.children.len() - i,
        {
            proof {
                vstd::std_specs::vec::axiom_vec_index_decreases(self.children, i as int);
            }
            children.push(self.children[i].clone());
            i += 1;
        }
        SgfTreeNodeDto { properties: self.properties.clone(), children }
    }
}

#[derive(Debug, Clone, PartialEq, Eq)]
pub struct CurrentGameError {
    pub kind: CurrentGameErrorKind,
    pub message: String,
}

#[derive(Debug, Clone, Copy, PartialEq, Eq, Structural)]
pub enum CurrentGameErrorKind {
    NoCurrentGame,
    InvalidNodePath,
    MalformedSgf,
    UnsupportedBoardSize,
    OccupiedPoint,
    Suicide,
    SimpleKo,
    RootRemoval,
    DepartureInProgress,
    DepartureBlocked,
}

impl CurrentGameError {
    /// The user-presentable text of the error.
    pub fn to_display_string(&self) -> (r: String)
        ensures
            r@ == self.message@,
    {
        self.message.clone()
    }
}

#[derive(Debug, Clone, Copy, PartialEq, Eq, Structural)]
pub enum ProblemSeverity {
    Info,
    Inaccuracy,
    Mistake,
    Blunder,
}

/// A problem found at a turn of a reviewed game. The losses are held by the
/// bit patterns of their `f32`.
#[derive(Debug, Clone, PartialEq, Eq)]
pub struct ProblemMarkerDto {
    pub turn: u32,
    pub severity: ProblemSeverity,
    pub winrate_loss_bits: u32,
    pub score_loss_bits: u32,
    pub label: String,
}

#[derive(Debug, PartialEq, Eq)]
pub struct EngineProfileDto {
    pub name: String,
    pub engine_path: String,
    pub model_path: Option<String>,
    pub config_path: Option<String>,
    pub working_dir: Option<String>,
    pub backend: EngineBackend,
}

/// The value of an engine profile, its texts as character sequences.
pub struct EngineProfileView {
    pub name: Seq<char>,
    pub engine_path: Seq<char>,
    pub model_path: Option<Seq<char>>,
    pub config_path: Option<Seq<char>>,
    pub working_dir: Option<Seq<char>>,
    pub backend: EngineBackend,
}

pub open spec fn opt_string_view(s: Option<String>) -> Option<Seq<char>> {
    match s {
        Some(x) => Some(x@),
        None => None,
    }
}

impl View for EngineProfileDto {
    type V = EngineProfileView;

    open spec fn view(&self) -> EngineProfileView {
        EngineProfileView {
            name: self.name@,
            engine_path: self.engine_path@,
            model_path: opt_string_view(self.model_path),
            config_path: opt_string_view(self.config_path),
            working_dir: opt_string_view(self.working_dir),
            backend: self.backend,
        }
    }
}

impl Clone for EngineProfileDto {
    fn clone(&self) -> (r: Self)
        ensures
            r == *self,
    {
        EngineProfileDto {
            name: self.name.clone(),
            engine_path: self.engine_path.clone(),
            model_path: self.model_path.clone(),
            config_path: self.config_path.clone(),
            working_dir: self.working_dir.clone(),
            backend: self.backend,
        }
    }
}

#[derive(Debug, Clone, Copy, PartialEq, Eq, Structural)]
pub enum EngineBackend {
    KataGoAnalysis,
    KataGoGtp,
    GenericGtp,
    ReadboardSidecar,
}

#[derive(Debug, Clone, Copy, PartialEq, Eq, Structural)]
pub enum EngineOperationDto {
    Start,
    Stop,
    Restart,
    Switch,
    Autoload,
    Teardown,
    Job,
    DeleteProfile,
    UnexpectedExit,
}

#[derive(Debug, Clone, Copy, PartialEq, Eq, Structural)]
pub enum EngineFailureKind {
    Start,
    Asset,
    Readiness,
    Protocol,
    NonzeroExit,
    Timeout,
    Cancellation,
    UnsupportedCapability,
    InvalidState,
    Occupied,
    ProfileNotFound,
    ProfileInUse,
}

#[derive(Debug, PartialEq, Eq)]
pub struct EngineFailureDto {
    pub operation: EngineOperationDto,
    pub run_id: Option<String>,
    pub switch_id: Option<String>,
    pub job_id: Option<String>,
    pub profile_id: Option<String>,
    pub kind: EngineFailureKind,
    pub message: String,
    pub diagnostic_summary: Option<String>,
}

impl Clone for EngineFailureDto {
    fn clone(&self) -> (r: Self)
        ensures
            r == *self,
    {
        EngineFailureDto {
            operation: self.operation,
            run_id: self.run_id.clone(),
            switch_id: self.switch_id.clone(),
            job_id: self.job_id.clone(),
            profile_id: self.profile_id.clone(),
            kind: self.kind,
            message: self.message.clone(),
            diagnostic_summary: self.diagnostic_summary.clone(),
        }
    }
}

impl EngineFailureDto {
    /// The user-presentable text of the failure.
    pub fn to_display_string(&self) -> (r: String)
        ensures
            r@ == self.message@,
    {
        self.message.clone()
    }
}

#[derive(Debug, Clone, Copy, PartialEq, Eq, Structural)]
pub struct EngineCapabilitySnapshotDto {
    pub adapter_kind: EngineBackend,
    pub selected_node_analysis: bool,
    pub whole_game_analysis: bool,
    pub protocol_cancel: bool,
}

#[derive(Debug, PartialEq, Eq)]
pub struct EngineRunDto {
    pub run_id: String,
    pub profile_id: String,
    pub adapter_kind: EngineBackend,
    pub profile_snapshot: EngineProfileDto,
    pub capability_snapshot: Option<EngineCapabilitySnapshotDto>,
}

impl Clone for EngineRunDto {
    fn clone(&self) -> (r: Self)
        ensures
            r == *self,
    {
        EngineRunDto {
            run_id: self.run_id.clone(),
            profile_id: self.profile_id.clone(),
            adapter_kind: self.adapter_kind,
            profile_snapshot: self.profile_snapshot.clone(),
            capability_snapshot: self.capability_snapshot,
        }
    }
}

#[derive(Debug, Clone, PartialEq)]
pub struct ForegroundEngineSnapshotDto {
    pub revision: u64,
    pub lifecycle: ForegroundEngineLifecycleDto,
    pub selected_node_job: Option<crate::analysis_job::AnalysisJobStartedDto>,
    pub whole_game_job: Option<crate::analysis_job::AnalysisJobStartedDto>,
}

/// What the foreground engine publishes: a new snapshot, a failure, or a
/// job's progress or end.
#[derive(Debug, Clone, PartialEq)]
pub enum ForegroundEngineEventDto {
    Snapshot { snapshot: ForegroundEngineSnapshotDto },
    Failure { failure: EngineFailureDto },
    Job { job: crate::analysis_job::AnalysisJobEventDto },
}

impl ForegroundEngineSnapshotDto {
    /// A snapshot of a lifecycle state with no analysis job attached.
    pub fn with_lifecycle(revision: u64, lifecycle: ForegroundEngineLifecycleDto) -> (r: Self)
        ensures
            r.revision == revision,
            r.lifecycle == lifecycle,
            r.selected_node_job is None,
            r.whole_game_job is None,
    {
        ForegroundEngineSnapshotDto {
            revision,
            lifecycle,
            selected_node_job: None,
            whole_game_job: None,
        }
    }
}

/// The lifecycle of the one foreground engine of the app.
#[derive(Debug, Clone, PartialEq)]
pub enum ForegroundEngineLifecycleDto {
    NoEngine { failure: Option<EngineFailureDto> },
    Starting { run: EngineRunDto },
    Ready { run: EngineRunDto },
    Switching { primary: EngineRunDto, candidate: EngineRunDto, switch_id: String },
    Stopping { run: EngineRunDto },
    Error { run: EngineRunDto, failure: EngineFailureDto },
}

#[derive(Debug, Clone)]
pub struct AppHealthDto {
    pub app: String,
    pub architecture: String,
    pub rust_backend_ready: bool,
    pub notes: Vec<String>,
}

#[derive(Debug, Clone, Copy, PartialEq, Eq, Structural)]
pub enum ProviderKind {
    Yike,
    Fox,
}

#[derive(Debug, Clone, PartialEq)]
pub struct ProviderImportRequest {
    pub provider: ProviderKind,
    pub payload: String,
    pub source_url: Option<String>,
    pub source_id: Option<String>,
    pub metadata: ProviderGameMetadata,
}

/// A game fetched from a provider, as SGF with what the provider said of it.
#[derive(Debug, Clone, PartialEq)]
pub struct ProviderImportResult {
    pub provider: ProviderKind,
    pub sgf_text: String,
    pub summary: ProviderGameSummary,
    pub metadata: ProviderGameMetadata,
    pub warnings: Vec<String>,
}

/// What a provider said of a game. The komi is held by the bit pattern of
/// its `f32`.
#[derive(Debug, Clone, PartialEq)]
pub struct ProviderGameSummary {
    pub provider: ProviderKind,
    pub source_id: Option<String>,
    pub board_size: Option<u8>,
    pub komi_bits: Option<u32>,
    pub handicap: Option<u8>,
    pub black_name: Option<String>,
    pub white_name: Option<String>,
    pub result: Option<String>,
    pub date: Option<String>,
    pub move_count: Option<usize>,
}

impl ProviderGameSummary {
    /// A summary of `provider` that knows nothing of the game.
    pub fn empty(provider: ProviderKind) -> (r: Self)
        ensures
            r == (ProviderGameSummary {
                provider,
                source_id: None,
                board_size: None,
                komi_bits: None,
                handicap: None,
                black_name: None,
                white_name: None,
                result: None,
                date: None,
                move_count: None,
            }),
    {
        ProviderGameSummary {
            provider,
            source_id: None,
            board_size: None,
            komi_bits: None,
            handicap: None,
            black_name: None,
            white_name: None,
            result: None,
            date: None,
            move_count: None,
        }
    }
}

#[derive(Debug, Clone, PartialEq, Eq, Default)]
pub struct ProviderGameMetadata {
    pub source_url: Option<String>,
    pub request_url: Option<String>,
    pub source_id: Option<String>,
    pub room_id: Option<String>,
    pub title: Option<String>,
    pub provider_status: Option<String>,
    pub extra: std::collections::BTreeMap<String, String>,
}

#[derive(Debug, Clone, PartialEq, Eq)]
pub struct ProviderError {
    pub kind: ProviderErrorKind,
    pub message: String,
}

#[derive(Debug, Clone, Copy, PartialEq, Eq, Structural)]
pub enum ProviderErrorKind {
    InvalidRequest,
    UnsupportedProvider,
    InvalidUrl,
    InvalidPayload,
    ParseFailed,
    TransportFailed,
    Timeout,
    RuntimeUnavailable,
    NotImplemented,
}

#[derive(Debug, Clone, Copy, PartialEq, Eq, Structural)]
pub enum ProviderFetchMethod {
    Get,
    Post,
}

impl Default for ProviderFetchMethod {
    fn default() -> (r: Self)
        ensures
            r == ProviderFetchMethod::Get,
    {
        ProviderFetchMethod::Get
    }
}

#[derive(Debug, Clone, PartialEq, Eq)]
pub struct ProviderFetchRequest {
    pub provider: ProviderKind,
    pub url: String,
    pub method: ProviderFetchMethod,
    pub headers: std::collections::BTreeMap<String, String>,
    pub body: Option<String>,
    pub source_url: Option<String>,
    pub source_id: Option<String>,
    pub timeout_ms: Option<u64>,
}

#[derive(Debug, Clone, PartialEq, Eq)]
pub struct ProviderFetchResult {
    pub provider: ProviderKind,
    pub url: String,
    pub status_code: u16,
    pub payload: String,
    pub headers: std::collections::BTreeMap<String, String>,
    pub content_type: Option<String>,
    pub metadata: ProviderGameMetadata,
    pub warnings: Vec<String>,
}

#[derive(Debug, Clone, PartialEq, Eq, Default)]
pub struct ReadboardSidecarProbeRequest {
    pub endpoint: Option<String>,
    pub timeout_ms: Option<u64>,
}

#[derive(Debug, Clone, PartialEq, Eq)]
pub struct ReadboardSidecarProbeResult {
    pub available: bool,
    pub endpoint: Option<String>,
    pub version: Option<String>,
    pub warnings: Vec<String>,
}

#[derive(Debug, Clone, PartialEq, Eq, Default)]
pub struct ReadboardSidecarSyncSnapshotRequest {
    pub endpoint: Option<String>,
    pub snapshot_id: Option<String>,
    pub image_path: Option<String>,
    pub image_base64: Option<String>,
    pub sgf_text: Option<String>,
    pub metadata: std::collections::BTreeMap<String, String>,
    pub timeout_ms: Option<u64>,
}

#[derive(Debug, Clone, PartialEq)]
pub struct ReadboardSidecarSyncSnapshotResult {
    pub snapshot_id: String,
    pub position: Option<PositionDto>,
    pub warnings: Vec<String>,
}

/// One candidate move of an analysis frame. Floating-point values are held
/// as their IEEE-754 `f32` bit patterns (`f32::to_bits`).
#[derive(Debug, PartialEq, Eq)]
pub struct CandidateMoveDto {
    pub vertex: MoveVertex,
    pub visits: u32,
    pub winrate_black_bits: u32,
    pub score_mean_black_bits: u32,
    pub policy_prior_bits: Option<u32>,
    pub pv: Vec<MoveVertex>,
}

/// One analysis result for a position. Floating-point values are held as
/// their IEEE-754 `f32` bit patterns (`f32::to_bits`).
#[derive(Debug, PartialEq, Eq)]
pub struct AnalysisFrameDto {
    pub job_id: uuid::Uuid,
    pub game_id: Option<uuid::Uuid>,
    pub node_id: Option<uuid::Uuid>,
    pub turn: u32,
    pub visits: u32,
    pub winrate_black_bits: u32,
    pub score_mean_black_bits: u32,
    pub score_stdev_bits: Option<u32>,
    pub candidates: Vec<CandidateMoveDto>,
    pub ownership_bits: Option<Vec<u32>>,
    pub policy_bits: Option<Vec<u32>>,
}

/// The value of a candidate move.
pub struct CandidateMoveView {
    pub vertex: MoveVertex,
    pub visits: u32,
    pub winrate_black_bits: u32,
    pub score_mean_black_bits: u32,
    pub policy_prior_bits: Option<u32>,
    pub pv: Seq<MoveVertex>,
}

impl View for CandidateMoveDto {
    type V = CandidateMoveView;

    open spec fn view(&self) -> CandidateMoveView {
        CandidateMoveView {
            vertex: self.vertex,
            visits: self.visits,
            winrate_black_bits: self.winrate_black_bits,
            score_mean_black_bits: self.score_mean_black_bits,
            policy_prior_bits: self.policy_prior_bits,
            pv: self.pv@,
        }
    }
}

/// The value of an analysis frame.
pub struct AnalysisFrameView {
    pub job_id: uuid::Uuid,
    pub game_id: Option<uuid::Uuid>,
    pub node_id: Option<uuid::Uuid>,
    pub turn: u32,
    pub visits: u32,
    pub winrate_black_bits: u32,
    pub score_mean_black_bits: u32,
    pub score_stdev_bits: Option<u32>,
    pub candidates: Seq<CandidateMoveView>,
    pub ownership_bits: Option<Seq<u32>>,
    pub policy_bits: Option<Seq<u32>>,
}

impl View for AnalysisFrameDto {
    type V = AnalysisFrameView;

    open spec fn view(&self) -> AnalysisFrameView {
        AnalysisFrameView {
            job_id: self.job_id,
            game_id: self.game_id,
            node_id: self.node_id,
            turn: self.turn,
            visits: self.visits,
            winrate_black_bits: self.winrate_black_bits,
            score_mean_black_bits: self.score_mean_black_bits,
            score_stdev_bits: self.score_stdev_bits,
            candidates: self.candidates@.map_values(|c: CandidateMoveDto| c@),
            ownership_bits: bits_view(self.ownership_bits),
            policy_bits: bits_view(self.policy_bits),
        }
    }
}

/// The bit patterns of an optional float vector.
pub open spec fn bits_view(v: Option<Vec<u32>>) -> Option<Seq<u32>> {
    match v {
        Some(b) => Some(b@),
        None => None,
    }
}

pub(crate) fn clone_bits(v: &Option<Vec<u32>>) -> (r: Option<Vec<u32>>)
    ensures
        bits_view(r) == bits_view(*v),
{
    match v {
        Some(bits) => {
            let c = bits.clone();
            assert(c@ =~= bits@);
            Some(c)
        },
        None => None,
    }
}

fn clone_vertices(v: &Vec<MoveVertex>) -> (r: Vec<MoveVertex>)
    ensures
        r@ == v@,
{
    let mut r: Vec<MoveVertex> = Vec::new();
    let mut i: usize = 0;
    while i < v.len()
        invariant
            i <= v.len(),
            r@ == v@.take(i as int),
        decreases v.len() - i,
    {
        r.push(v[i]);
        assert(r@ =~= v@.take(i + 1));
        i += 1;
    }
    assert(r@ =~= v@);
    r
}

impl Clone for CandidateMoveDto {
    fn clone(&self) -> (r: Self)
        ensures
            r@ == self@,
    {
        CandidateMoveDto {
            vertex: self.vertex,
            visits: self.visits,
            winrate_black_bits: self.winrate_black_bits,
            score_mean_black_bits: self.score_mean_black_bits,
            policy_prior_bits: self.policy_prior_bits,
            pv: clone_vertices(&self.pv),
        }
    }
}

impl Clone for AnalysisFrameDto {
    fn clone(&self) -> (r: Self)
        ensures
            r.job_id == self.job_id,
            r.game_id == self.game_id,
            r.node_id == self.node_id,
            r.turn == self.turn,
            r.visits == self.visits,
            r.winrate_black_bits == self.winrate_black_bits,
            r.score_mean_black_bits == self.score_mean_black_bits,
            r.score_stdev_bits == self.score_stdev_bits,
            r.candidates.len() == self.candidates.len(),
            bits_view(r.ownership_bits) == bits_view(self.ownership_bits),
            bits_view(r.policy_bits) == bits_view(self.policy_bits),
            r@ == self@,
    {
        let mut candidates: Vec<CandidateMoveDto> = Vec::new();
        let mut i: usize = 0;
        while i < self.candidates.len()
            invariant
                i <= self.candidates.len(),
                candidates.len() == i,
                forall|j: int| 0 <= j < i ==> (#[trigger] candidates@[j])@ == self.candidates@[j]@,
            decreases self.candidates.len() - i,
        {
            candidates.push(self.candidates[i].clone());
            i += 1;
        }
        assert(candidates@.map_values(|c: CandidateMoveDto| c@) =~= self.candidates@.map_values(
            |c: CandidateMoveDto| c@,
        ));
        AnalysisFrameDto {
            job_id: self.job_id,
            game_id: self.game_id,
            node_id: self.node_id,
            turn: self.turn,
            visits: self.visits,
            winrate_black_bits: self.winrate_black_bits,
            score_mean_black_bits: self.score_mean_black_bits,
            score_stdev_bits: self.score_stdev_bits,
            candidates,
            ownership_bits: clone_bits(&self.ownership_bits),
            policy_bits: clone_bits(&self.policy_bits),
        }
    }
}

/// The node a game shows: its path, position, comments and analysis.
#[derive(Debug, Clone, PartialEq)]
pub struct SelectedNodeSnapshotDto {
    pub path: NodePath,
    pub position: PositionDto,
    pub personal_comment: String,
    pub generated_information: Option<String>,
    pub primary_analysis: Option<AnalysisFrameDto>,
    pub secondary_analysis: Option<AnalysisFrameDto>,
}

/// The current game as the desktop shell shows it.
#[derive(Debug, Clone, PartialEq)]
pub struct CurrentGameResultDto {
    pub tree: SgfTreeNodeDto,
    pub selected_path: NodePath,
    pub snapshot: SelectedNodeSnapshotDto,
    pub generation: u64,
    pub dirty: bool,
    pub native_path: Option<String>,
}

/// Whether leaving the current document needs the user's decision first.
#[derive(Debug, Clone, Copy, PartialEq, Eq, Structural)]
pub enum DocumentDepartureAdmissionDto {
    NeedsDecision { departure_id: u64 },
    Ready { departure_id: u64 },
}

/// The user's answer to a pending departure.
#[derive(Debug, Clone, Copy, PartialEq, Eq, Structural)]
pub enum DocumentDepartureActionDto {
    Save,
    Discard,
    Cancel,
}

/// What a departure did.
#[derive(Debug, Clone, PartialEq)]
pub struct DocumentDepartureOutcomeDto {
    pub committed: bool,
    pub analysis_stopped: bool,
    pub current: Option<CurrentGameResultDto>,
    pub message: String,
}

/// A game's header. The komi is held by the bit pattern of its `f32`.
#[derive(Debug)]
pub struct GameSummaryDto {
    pub id: uuid::Uuid,
    pub board_size: u8,
    pub komi_bits: u32,
    pub black_name: Option<String>,
    pub white_name: Option<String>,
    pub result: Option<String>,
    pub move_count: usize,
}

/// A game: its header and main-line moves.
#[derive(Debug)]
pub struct GameDto {
    pub summary: GameSummaryDto,
    pub moves: Vec<MoveDto>,
}

impl Clone for GameSummaryDto {
    fn clone(&self) -> (r: Self)
        ensures
            r == *self,
    {
        GameSummaryDto {
            id: self.id,
            board_size: self.board_size,
            komi_bits: self.komi_bits,
            black_name: self.black_name.clone(),
            white_name: self.white_name.clone(),
            result: self.result.clone(),
            move_count: self.move_count,
        }
    }
}

impl Clone for GameDto {
    fn clone(&self) -> (r: Self)
        ensures
            r.summary == self.summary,
            r.moves@ == self.moves@,
    {
        let moves = self.moves.clone();
        assert(moves@ =~= self.moves@);
        GameDto { summary: self.summary.clone(), moves }
    }
}

} // verus!
