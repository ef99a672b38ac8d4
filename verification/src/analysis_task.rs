//! Analysis tasks: which positions to analyse, and the search budget of each
//! stage.
use vstd::prelude::*;
use crate::model::{AnalysisFrameDto, NodePath, PlayerColor};

verus! {

broadcast use vstd::string::group_string_axioms;

#[derive(Debug, Clone, Copy, PartialEq, Eq, Structural)]
pub enum AnalysisScopeModeDto {
    CurrentNode,
    SelectedReviewLine,
    FirstChildMainline,
    AllBranches,
}

#[derive(Debug, Clone, PartialEq, Eq)]
pub struct AnalysisBranchChoiceDto {
    pub parent: NodePath,
    pub child: u32,
}

#[derive(Debug, Clone, Copy, PartialEq, Eq, Structural)]
pub struct AnalysisPositionIntervalDto {
    pub start: u32,
    pub end: u32,
}

#[derive(Debug, Clone, PartialEq, Eq)]
pub struct AnalysisScopeDto {
    pub mode: AnalysisScopeModeDto,
    pub current_node: NodePath,
    pub branch_choices: Vec<AnalysisBranchChoiceDto>,
    pub interval: Option<AnalysisPositionIntervalDto>,
    pub to_play: Option<PlayerColor>,
}

/// One search limit of a stage; a disabled limit keeps its value.
#[derive(Debug, Clone, Copy, PartialEq, Eq, Structural)]
pub struct AnalysisTaskLimitDto {
    pub enabled: bool,
    pub value: u32,
}

/// The search limits of one task stage.
#[derive(Debug, Clone, Copy, PartialEq, Eq, Structural)]
pub struct AnalysisStageConditionsDto {
    pub time_seconds: AnalysisTaskLimitDto,
    pub total_visits: AnalysisTaskLimitDto,
    pub leading_candidate_visits: AnalysisTaskLimitDto,
}

#[derive(Debug, Clone, Copy, PartialEq, Eq, Structural)]
pub enum AnalysisTaskStrategyDto {
    SingleStage,
    AllPositionsTwoStage,
}

#[derive(Debug, Clone, Copy, PartialEq, Eq, Structural)]
pub enum AnalysisTaskStageDto {
    SingleStage,
    Overview,
    Deep,
}

/// A `Result<(), String>` with the message taken as a character sequence.
pub open spec fn unit_result_view(r: Result<(), String>) -> Result<(), Seq<char>> {
    match r {
        Ok(()) => Ok(()),
        Err(m) => Err(m@),
    }
}

pub open spec fn limit_value_message() -> Seq<char> {
    "Task limits must be whole numbers from 1 to 4294967295, including retained disabled values."@
}

pub open spec fn no_enabled_limit_message() -> Seq<char> {
    "Enable at least one task search condition."@
}

pub open spec fn shallow_deep_message() -> Seq<char> {
    "All-position deep total visits must be at least 500."@
}

/// The smallest total-visits budget of the deep stage of an all-position task.
pub const DEEP_MINIMUM_TOTAL_VISITS: u32 = 500;

/// A stage is valid when every limit, enabled or not, holds a positive value,
/// and at least one limit is enabled.
pub open spec fn single_stage_spec(c: AnalysisStageConditionsDto) -> Result<(), Seq<char>> {
    if c.time_seconds.value == 0 || c.total_visits.value == 0 || c.leading_candidate_visits.value
        == 0 {
        Err(limit_value_message())
    } else if !c.time_seconds.enabled && !c.total_visits.enabled
        && !c.leading_candidate_visits.enabled {
        Err(no_enabled_limit_message())
    } else {
        Ok(())
    }
}

/// Both stages valid on their own, the overview checked first, and the deep
/// stage keeps a total-visits value of at least 500.
pub open spec fn two_stage_spec(
    overview: AnalysisStageConditionsDto,
    deep: AnalysisStageConditionsDto,
) -> Result<(), Seq<char>> {
    if single_stage_spec(overview) is Err {
        single_stage_spec(overview)
    } else if single_stage_spec(deep) is Err {
        single_stage_spec(deep)
    } else if deep.total_visits.value < DEEP_MINIMUM_TOTAL_VISITS {
        Err(shallow_deep_message())
    } else {
        Ok(())
    }
}

impl AnalysisStageConditionsDto {
    pub fn validate_all_positions_two_stage(overview: &Self, deep: &Self) -> (r: Result<(), String>)
        ensures
            unit_result_view(r) == two_stage_spec(*overview, *deep),
    {
        overview.validate_single_stage()?;
        deep.validate_single_stage()?;
        if deep.total_visits.value < DEEP_MINIMUM_TOTAL_VISITS {
            let m = String::from_str("All-position deep total visits must be at least 500.");
            proof {
                reveal_strlit("All-position deep total visits must be at least 500.");
            }
            return Err(m);
        }
        Ok(())
    }

    pub fn validate_single_stage(&self) -> (r: Result<(), String>)
        ensures
            unit_result_view(r) == single_stage_spec(*self),
    {
        if self.time_seconds.value == 0 || self.total_visits.value == 0
            || self.leading_candidate_visits.value == 0 {
            return Err(
                String::from_str(
                    "Task limits must be whole numbers from 1 to 4294967295, including retained disabled values.",
                ),
            );
        }
        if !self.time_seconds.enabled && !self.total_visits.enabled
            && !self.leading_candidate_visits.enabled {
            return Err(String::from_str("Enable at least one task search condition."));
        }
        Ok(())
    }
}

impl Default for AnalysisStageConditionsDto {
    /// Ten seconds and five hundred leading-candidate visits, both off; eight
    /// hundred total visits, on.
    fn default() -> (r: Self)
        ensures
            r == (AnalysisStageConditionsDto {
                time_seconds: AnalysisTaskLimitDto { enabled: false, value: 10 },
                total_visits: AnalysisTaskLimitDto { enabled: true, value: 800 },
                leading_candidate_visits: AnalysisTaskLimitDto { enabled: false, value: 500 },
            }),
    {
        AnalysisStageConditionsDto {
            time_seconds: AnalysisTaskLimitDto { enabled: false, value: 10 },
            total_visits: AnalysisTaskLimitDto { enabled: true, value: 800 },
            leading_candidate_visits: AnalysisTaskLimitDto { enabled: false, value: 500 },
        }
    }
}

#[derive(Debug, Clone, PartialEq, Eq)]
pub struct AnalysisScopeTargetDto {
    pub node_path: NodePath,
    pub move_number: u32,
    pub to_play: PlayerColor,
}

#[derive(Debug, Clone, PartialEq, Eq)]
pub struct AnalysisScopePreviewDto {
    pub generation: u64,
    pub scope: AnalysisScopeDto,
    pub targets: Vec<AnalysisScopeTargetDto>,
}

#[derive(Debug, Clone, Copy, PartialEq, Eq, Structural)]
pub enum AnalysisTaskStateDto {
    Queued,
    Searching,
    Pausing,
    Paused,
    Completed,
    Cancelled,
    Failed,
    Invalidated,
}

#[derive(Debug, Clone, PartialEq, Eq)]
pub struct AnalysisTaskOverviewDto {
    pub node_path: NodePath,
    pub frame: AnalysisFrameDto,
}

#[derive(Debug, Clone, PartialEq, Eq)]
pub struct AnalysisTaskDto {
    pub task_id: String,
    pub run_id: String,
    pub job_id: String,
    pub generation: u64,
    pub scope: AnalysisScopeDto,
    pub strategy: AnalysisTaskStrategyDto,
    pub stage: AnalysisTaskStageDto,
    pub conditions: AnalysisStageConditionsDto,
    pub overview_conditions: Option<AnalysisStageConditionsDto>,
    pub requested: Vec<NodePath>,
    pub overview_completed: Vec<NodePath>,
    pub completed: Vec<NodePath>,
    pub overview_summaries: Vec<AnalysisTaskOverviewDto>,
    pub state: AnalysisTaskStateDto,
    pub reason: Option<String>,
    pub ending_conditions: Vec<String>,
}

} // verus!
