//! Application preferences: owner defaults, the budget of continuous
//! analysis, and the normalisation applied before a value is kept.
use vstd::prelude::*;
use crate::text::str_eq;

verus! {

broadcast use vstd::string::group_string_axioms;

pub const APP_PREFERENCES_FILE: &'static str = "lizzieyzy-next-app-preferences.json";

pub const UNREADABLE_RECOVERY_MESSAGE: &'static str = "Unreadable preferences isolated; restored defaults.";

/// The search budget of continuous (follow-the-cursor) analysis.
#[derive(Debug, Clone, Copy, PartialEq, Eq, Structural)]
pub struct ContinuousAnalysisBudgetDto {
    pub continuous_time_limit_enabled: bool,
    pub continuous_time_limit_seconds: u32,
    pub continuous_visits_limit_enabled: bool,
    pub continuous_visits_limit: u32,
    pub continuous_stop_on_empty_board: bool,
}

pub open spec fn default_budget() -> ContinuousAnalysisBudgetDto {
    ContinuousAnalysisBudgetDto {
        continuous_time_limit_enabled: true,
        continuous_time_limit_seconds: 600,
        continuous_visits_limit_enabled: false,
        continuous_visits_limit: 10000,
        continuous_stop_on_empty_board: true,
    }
}

impl Default for ContinuousAnalysisBudgetDto {
    /// Ten minutes of search per position, no visit limit, and no search on
    /// an empty board.
    fn default() -> (r: Self)
        ensures
            r == default_budget(),
    {
        ContinuousAnalysisBudgetDto {
            continuous_time_limit_enabled: true,
            continuous_time_limit_seconds: 600,
            continuous_visits_limit_enabled: false,
            continuous_visits_limit: 10000,
            continuous_stop_on_empty_board: true,
        }
    }
}

pub open spec fn budget_limit_message() -> Seq<char> {
    "Continuous analysis limits must be whole numbers from 1 to 4294967295."@
}

/// Both limits, enabled or not, hold a positive value.
pub open spec fn budget_is_valid(b: ContinuousAnalysisBudgetDto) -> bool {
    b.continuous_time_limit_seconds != 0 && b.continuous_visits_limit != 0
}

impl ContinuousAnalysisBudgetDto {
    pub fn validate(&self) -> (r: Result<(), String>)
        ensures
            r is Ok <==> budget_is_valid(*self),
            r matches Err(m) ==> m@ == budget_limit_message(),
    {
        if self.continuous_time_limit_seconds == 0 || self.continuous_visits_limit == 0 {
            return Err(
                String::from_str(
                    "Continuous analysis limits must be whole numbers from 1 to 4294967295.",
                ),
            );
        }
        Ok(())
    }
}

#[derive(Debug, Clone, PartialEq, Eq)]
pub struct AppPreferencesDto {
    pub continuous_analysis_enabled: bool,
    pub continuous_budget: ContinuousAnalysisBudgetDto,
    pub show_ownership: bool,
    pub show_policy: bool,
    pub show_candidates: bool,
    pub candidate_limit: u32,
    pub default_max_visits: u32,
    pub review_mode: String,
    pub board_theme: String,
    pub graph_perspective: String,
    pub winrate_line: bool,
    pub score_lead_line: bool,
    pub blunder_bar: bool,
    pub graph_hover: bool,
    pub score_lead_scale: u32,
    pub next_move_review_marker: String,
    pub sub_board_content_mode: String,
    pub variation_replay_enabled: bool,
    pub variation_replay_interval_ms: u32,
    pub restore_last_session: bool,
}

/// The value of a preferences record, its texts as character sequences.
pub struct AppPreferencesView {
    pub continuous_analysis_enabled: bool,
    pub continuous_budget: ContinuousAnalysisBudgetDto,
    pub show_ownership: bool,
    pub show_policy: bool,
    pub show_candidates: bool,
    pub candidate_limit: u32,
    pub default_max_visits: u32,
    pub review_mode: Seq<char>,
    pub board_theme: Seq<char>,
    pub graph_perspective: Seq<char>,
    pub winrate_line: bool,
    pub score_lead_line: bool,
    pub blunder_bar: bool,
    pub graph_hover: bool,
    pub score_lead_scale: u32,
    pub next_move_review_marker: Seq<char>,
    pub sub_board_content_mode: Seq<char>,
    pub variation_replay_enabled: bool,
    pub variation_replay_interval_ms: u32,
    pub restore_last_session: bool,
}

impl View for AppPreferencesDto {
    type V = AppPreferencesView;

    open spec fn view(&self) -> AppPreferencesView {
        AppPreferencesView {
            continuous_analysis_enabled: self.continuous_analysis_enabled,
            continuous_budget: self.continuous_budget,
            show_ownership: self.show_ownership,
            show_policy: self.show_policy,
            show_candidates: self.show_candidates,
            candidate_limit: self.candidate_limit,
            default_max_visits: self.default_max_visits,
            review_mode: self.review_mode@,
            board_theme: self.board_theme@,
            graph_perspective: self.graph_perspective@,
            winrate_line: self.winrate_line,
            score_lead_line: self.score_lead_line,
            blunder_bar: self.blunder_bar,
            graph_hover: self.graph_hover,
            score_lead_scale: self.score_lead_scale,
            next_move_review_marker: self.next_move_review_marker@,
            sub_board_content_mode: self.sub_board_content_mode@,
            variation_replay_enabled: self.variation_replay_enabled,
            variation_replay_interval_ms: self.variation_replay_interval_ms,
            restore_last_session: self.restore_last_session,
        }
    }
}

#[derive(Debug, Clone, PartialEq, Eq)]
pub struct AppPreferencesRecoveryDto {
    pub isolated_path: String,
    pub message: String,
}

#[derive(Debug, Clone, PartialEq, Eq)]
pub struct AppPreferencesLoadResultDto {
    pub preferences: AppPreferencesDto,
    pub recovery: Option<AppPreferencesRecoveryDto>,
}

/// The owner defaults.
pub open spec fn default_preferences_view() -> AppPreferencesView {
    AppPreferencesView {
        continuous_analysis_enabled: true,
        continuous_budget: default_budget(),
        show_ownership: true,
        show_policy: true,
        show_candidates: true,
        candidate_limit: 8,
        default_max_visits: 800,
        review_mode: "quick"@,
        board_theme: "classic"@,
        graph_perspective: "black"@,
        winrate_line: true,
        score_lead_line: true,
        blunder_bar: false,
        graph_hover: true,
        score_lead_scale: 15,
        next_move_review_marker: "variations"@,
        sub_board_content_mode: "variation"@,
        variation_replay_enabled: false,
        variation_replay_interval_ms: 500,
        restore_last_session: false,
    }
}

/// `u32::clamp`.
pub open spec fn clamp(v: u32, lo: u32, hi: u32) -> u32 {
    if v < lo {
        lo
    } else if v > hi {
        hi
    } else {
        v
    }
}

fn clamp_u32(v: u32, lo: u32, hi: u32) -> (r: u32)
    requires
        lo <= hi,
    ensures
        r == clamp(v, lo, hi),
{
    if v < lo {
        lo
    } else if v > hi {
        hi
    } else {
        v
    }
}

/// What a stored preferences value is normalised to: counts clamped into
/// range, texts outside their known values reset to the default, and at
/// least one graph line shown.
pub open spec fn normalized_view(p: AppPreferencesView) -> AppPreferencesView {
    AppPreferencesView {
        candidate_limit: clamp(p.candidate_limit, 1, 20),
        default_max_visits: clamp(p.default_max_visits, 1, 1_000_000),
        variation_replay_interval_ms: clamp(p.variation_replay_interval_ms, 100, 5000),
        review_mode: if p.review_mode == "deep"@ {
            p.review_mode
        } else {
            "quick"@
        },
        board_theme: if p.board_theme == "high-contrast"@ {
            p.board_theme
        } else {
            "classic"@
        },
        graph_perspective: if p.graph_perspective == "sideToPlay"@ {
            p.graph_perspective
        } else {
            "black"@
        },
        winrate_line: p.winrate_line || !p.score_lead_line,
        score_lead_scale: if p.score_lead_scale == 0 {
            15
        } else {
            clamp(p.score_lead_scale, 1, 1000)
        },
        next_move_review_marker: if p.next_move_review_marker == "off"@
            || p.next_move_review_marker == "graded"@ {
            p.next_move_review_marker
        } else {
            "variations"@
        },
        sub_board_content_mode: if p.sub_board_content_mode == "raw"@ {
            p.sub_board_content_mode
        } else {
            "variation"@
        },
        ..p
    }
}

/// A preferences value that normalisation leaves as it is.
pub open spec fn is_normalized(p: AppPreferencesView) -> bool {
    &&& 1 <= p.candidate_limit <= 20
    &&& 1 <= p.default_max_visits <= 1_000_000
    &&& 100 <= p.variation_replay_interval_ms <= 5000
    &&& (p.review_mode == "deep"@ || p.review_mode == "quick"@)
    &&& (p.board_theme == "high-contrast"@ || p.board_theme == "classic"@)
    &&& (p.graph_perspective == "sideToPlay"@ || p.graph_perspective == "black"@)
    &&& (p.winrate_line || p.score_lead_line)
    &&& 1 <= p.score_lead_scale <= 1000
    &&& (p.next_move_review_marker == "off"@ || p.next_move_review_marker == "graded"@
        || p.next_move_review_marker == "variations"@)
    &&& (p.sub_board_content_mode == "raw"@ || p.sub_board_content_mode == "variation"@)
}

pub fn default_app_preferences() -> (r: AppPreferencesDto)
    ensures
        r@ == default_preferences_view(),
{
    AppPreferencesDto {
        continuous_analysis_enabled: default_continuous_analysis_enabled(),
        continuous_budget: ContinuousAnalysisBudgetDto::default(),
        show_ownership: default_show_ownership(),
        show_policy: default_show_policy(),
        show_candidates: default_show_candidates(),
        candidate_limit: default_candidate_limit(),
        default_max_visits: default_max_visits(),
        review_mode: default_review_mode(),
        board_theme: default_board_theme(),
        graph_perspective: default_graph_perspective(),
        winrate_line: default_winrate_line(),
        score_lead_line: default_score_lead_line(),
        blunder_bar: default_blunder_bar(),
        graph_hover: default_graph_hover(),
        score_lead_scale: default_score_lead_scale(),
        next_move_review_marker: default_next_move_review_marker(),
        sub_board_content_mode: default_sub_board_content_mode(),
        variation_replay_enabled: default_variation_replay_enabled(),
        variation_replay_interval_ms: default_variation_replay_interval_ms(),
        restore_last_session: default_restore_last_session(),
    }
}

/// `s` when it is `a` or `b`, `fallback` otherwise.
fn keep_if_one_of(s: String, a: &str, b: &str, fallback: String) -> (r: String)
    ensures
        r@ == (if s@ == a@ || s@ == b@ {
            s@
        } else {
            fallback@
        }),
{
    if str_eq(&s, a) || str_eq(&s, b) {
        s
    } else {
        fallback
    }
}

pub fn normalize_app_preferences(preferences: AppPreferencesDto) -> (r: AppPreferencesDto)
    ensures
        r@ == normalized_view(preferences@),
{
    let AppPreferencesDto {
        continuous_analysis_enabled,
        continuous_budget,
        show_ownership,
        show_policy,
        show_candidates,
        candidate_limit,
        default_max_visits,
        review_mode,
        board_theme,
        graph_perspective,
        winrate_line,
        score_lead_line,
        blunder_bar,
        graph_hover,
        score_lead_scale,
        next_move_review_marker,
        sub_board_content_mode,
        variation_replay_enabled,
        variation_replay_interval_ms,
        restore_last_session,
    } = preferences;
    let score_lead_scale = if score_lead_scale == 0 {
        default_score_lead_scale()
    } else {
        clamp_u32(score_lead_scale, 1, 1000)
    };
    AppPreferencesDto {
        continuous_analysis_enabled,
        continuous_budget,
        show_ownership,
        show_policy,
        show_candidates,
        candidate_limit: clamp_u32(candidate_limit, 1, 20),
        default_max_visits: clamp_u32(default_max_visits, 1, 1_000_000),
        review_mode: keep_if_one_of(review_mode, "deep", "deep", default_review_mode()),
        board_theme: keep_if_one_of(
            board_theme,
            "high-contrast",
            "high-contrast",
            default_board_theme(),
        ),
        graph_perspective: keep_if_one_of(
            graph_perspective,
            "sideToPlay",
            "sideToPlay",
            default_graph_perspective(),
        ),
        winrate_line: winrate_line || !score_lead_line,
        score_lead_line,
        blunder_bar,
        graph_hover,
        score_lead_scale,
        next_move_review_marker: keep_if_one_of(
            next_move_review_marker,
            "off",
            "graded",
            default_next_move_review_marker(),
        ),
        sub_board_content_mode: keep_if_one_of(
            sub_board_content_mode,
            "raw",
            "raw",
            default_sub_board_content_mode(),
        ),
        variation_replay_enabled,
        variation_replay_interval_ms: clamp_u32(variation_replay_interval_ms, 100, 5000),
        restore_last_session,
    }
}

/// The value `save_to_path` stores for `preferences`: refused when the
/// continuous budget is invalid, normalised otherwise.
pub fn prepare_preferences_for_save(preferences: AppPreferencesDto) -> (r: Result<
    AppPreferencesDto,
    String,
>)
    ensures
        r is Ok <==> budget_is_valid(preferences.continuous_budget),
        r matches Ok(p) ==> p@ == normalized_view(preferences@),
        r matches Err(m) ==> m@ == budget_limit_message(),
{
    preferences.continuous_budget.validate()?;
    Ok(normalize_app_preferences(preferences))
}

/// The value `load_from_path` takes from a parsed file: normalised when its
/// continuous budget is valid; `None` when the file must be treated as
/// unreadable.
pub fn accept_loaded_preferences(preferences: AppPreferencesDto) -> (r: Option<AppPreferencesDto>)
    ensures
        r is Some <==> budget_is_valid(preferences.continuous_budget),
        r matches Some(p) ==> p@ == normalized_view(preferences@),
{
    if preferences.continuous_budget.validate().is_ok() {
        Some(normalize_app_preferences(preferences))
    } else {
        None
    }
}

/// The path of the temporary file written before an atomic replace.
pub fn tmp_path(path: &str) -> (r: String)
    ensures
        r@ == path@ + ".tmp"@,
{
    let mut r = String::from_str(path);
    r.append(".tmp");
    r
}

/// Normalising twice gives what normalising once gave.
pub proof fn normalize_is_idempotent(p: AppPreferencesView)
    ensures
        normalized_view(normalized_view(p)) == normalized_view(p),
{
    reveal_strlit("deep");
    reveal_strlit("quick");
    reveal_strlit("high-contrast");
    reveal_strlit("classic");
    reveal_strlit("sideToPlay");
    reveal_strlit("black");
    reveal_strlit("off");
    reveal_strlit("graded");
    reveal_strlit("variations");
    reveal_strlit("raw");
    reveal_strlit("variation");
}

/// Every normalised value lies within the known ranges and values.
pub proof fn normalized_is_in_range(p: AppPreferencesView)
    ensures
        is_normalized(normalized_view(p)),
{
}

/// A value within the known ranges and values is left as it is.
pub proof fn normalized_values_are_fixed(p: AppPreferencesView)
    requires
        is_normalized(p),
    ensures
        normalized_view(p) == p,
{
    reveal_strlit("deep");
    reveal_strlit("quick");
    reveal_strlit("high-contrast");
    reveal_strlit("classic");
    reveal_strlit("sideToPlay");
    reveal_strlit("black");
    reveal_strlit("off");
    reveal_strlit("graded");
    reveal_strlit("variations");
    reveal_strlit("raw");
    reveal_strlit("variation");
}

/// The owner defaults are already normalised, with a valid budget.
pub proof fn defaults_are_normalized()
    ensures
        is_normalized(default_preferences_view()),
        normalized_view(default_preferences_view()) == default_preferences_view(),
        budget_is_valid(default_budget()),
{
    normalized_values_are_fixed(default_preferences_view());
}

pub fn default_continuous_analysis_enabled() -> (r: bool)
    ensures
        r,
{
    true
}

pub fn default_show_ownership() -> (r: bool)
    ensures
        r,
{
    true
}

pub fn default_show_policy() -> (r: bool)
    ensures
        r,
{
    true
}

pub fn default_show_candidates() -> (r: bool)
    ensures
        r,
{
    true
}

pub fn default_candidate_limit() -> (r: u32)
    ensures
        r == 8,
{
    8
}

pub fn default_max_visits() -> (r: u32)
    ensures
        r == 800,
{
    800
}

pub fn default_review_mode() -> (r: String)
    ensures
        r@ == "quick"@,
{
    String::from_str("quick")
}

pub fn default_board_theme() -> (r: String)
    ensures
        r@ == "classic"@,
{
    String::from_str("classic")
}

pub fn default_graph_perspective() -> (r: String)
    ensures
        r@ == "black"@,
{
    String::from_str("black")
}

pub fn default_winrate_line() -> (r: bool)
    ensures
        r,
{
    true
}

pub fn default_score_lead_line() -> (r: bool)
    ensures
        r,
{
    true
}

pub fn default_blunder_bar() -> (r: bool)
    ensures
        !r,
{
    false
}

pub fn default_graph_hover() -> (r: bool)
    ensures
        r,
{
    true
}

pub fn default_score_lead_scale() -> (r: u32)
    ensures
        r == 15,
{
    15
}

pub fn default_next_move_review_marker() -> (r: String)
    ensures
        r@ == "variations"@,
{
    String::from_str("variations")
}

pub fn default_sub_board_content_mode() -> (r: String)
    ensures
        r@ == "variation"@,
{
    String::from_str("variation")
}

pub fn default_variation_replay_enabled() -> (r: bool)
    ensures
        !r,
{
    false
}

pub fn default_variation_replay_interval_ms() -> (r: u32)
    ensures
        r == 500,
{
    500
}

pub fn default_restore_last_session() -> (r: bool)
    ensures
        !r,
{
    false
}

} // verus!
