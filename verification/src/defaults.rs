//! Default thresholds and scoring constants.
use vstd::prelude::*;

verus! {

pub const MAX_LINES: usize = 300;
pub const MAX_DEPTH: usize = 4;
pub const MAX_PARAMS: usize = 4;
pub const MAX_COMPLEXITY: usize = 10;
pub const MAX_COGNITIVE_COMPLEXITY: usize = 15;

/// Scoring weights, out of 100.
pub const WEIGHT_COMPLEXITY: u64 = 35;
pub const WEIGHT_ISSUES: u64 = 40;
pub const WEIGHT_STRUCTURE: u64 = 25;

/// Penalty per unit of cyclomatic excess, and its cap per function.
pub const CC_PENALTY_RATE: u64 = 2;
pub const CC_PENALTY_CAP: u64 = 15;
/// Penalty per unit of cognitive excess is 1.5 points; in half points 3, capped at 12 points.
pub const COG_PENALTY_RATE_HALVES: u64 = 3;
pub const COG_PENALTY_CAP_HALVES: u64 = 24;

/// Structure penalties: per violation, and the cap per rule.
pub const MAX_LINES_PENALTY: u64 = 10;
pub const MAX_LINES_PENALTY_CAP: u64 = 12;
pub const MAX_DEPTH_PENALTY: u64 = 4;
pub const MAX_DEPTH_PENALTY_CAP: u64 = 12;
pub const MAX_PARAMS_PENALTY: u64 = 3;
pub const MAX_PARAMS_PENALTY_CAP: u64 = 10;

/// Issue points lost per error of a rule.
pub const ERROR_PENALTY: u64 = 8;

/// Issue points lost for the warnings of a rule, before the sub-linear
/// scaling by their count.
pub const WARNING_PENALTY: u64 = 4;

/// Project-level density penalty cap.
pub const DENSITY_PENALTY_CAP: i32 = 15;

/// The share of a file, in percent of its bytes, that the grammar may fail to
/// read before the file is left unanalyzed.
pub const UNANALYZED_MIN_SHARE: u64 = 20;

/// Grade boundaries.
pub const GRADE_A_MIN: i32 = 90;
pub const GRADE_B_MIN: i32 = 80;
pub const GRADE_C_MIN: i32 = 70;
pub const GRADE_D_MIN: i32 = 60;

} // verus!
