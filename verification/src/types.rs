//! The analysis results: issues, complexity figures, scores and grades.
use vstd::prelude::*;
use crate::defaults::{GRADE_A_MIN, GRADE_B_MIN, GRADE_C_MIN, GRADE_D_MIN};

verus! {

/// How serious an issue is.
#[derive(Debug, Clone, Copy, PartialEq, Eq, Structural)]
pub enum Severity {
    Error,
    Warning,
    Info,
}

/// A letter grade for a score out of 100.
#[derive(Debug, Clone, Copy, PartialEq, Eq, Structural)]
pub enum Grade {
    A,
    B,
    C,
    D,
    F,
}

pub open spec fn spec_grade_letter(g: Grade) -> Seq<char> {
    match g {
        Grade::A => "A"@,
        Grade::B => "B"@,
        Grade::C => "C"@,
        Grade::D => "D"@,
        Grade::F => "F"@,
    }
}

impl Grade {
    /// The grade's letter.
    pub fn to_string(&self) -> (r: String)
        ensures
            r@ == spec_grade_letter(*self),
    {
        let s = match self {
            Grade::A => "A",
            Grade::B => "B",
            Grade::C => "C",
            Grade::D => "D",
            Grade::F => "F",
        };
        s.to_owned()
    }
}

/// The grade a score earns: A from 90, B from 80, C from 70, D from 60, F below.
pub open spec fn spec_to_grade(score: int) -> Grade {
    if score >= GRADE_A_MIN {
        Grade::A
    } else if score >= GRADE_B_MIN {
        Grade::B
    } else if score >= GRADE_C_MIN {
        Grade::C
    } else if score >= GRADE_D_MIN {
        Grade::D
    } else {
        Grade::F
    }
}

pub fn to_grade(score: i32) -> (g: Grade)
    ensures
        g == spec_to_grade(score as int),
{
    if score >= GRADE_A_MIN {
        Grade::A
    } else if score >= GRADE_B_MIN {
        Grade::B
    } else if score >= GRADE_C_MIN {
        Grade::C
    } else if score >= GRADE_D_MIN {
        Grade::D
    } else {
        Grade::F
    }
}

/// How a run compares with a saved baseline.
#[derive(Debug, Clone, Copy, PartialEq, Eq, Structural)]
pub enum ComparisonStatus {
    Improved,
    Degraded,
    Unchanged,
}

pub open spec fn spec_status_word(s: ComparisonStatus) -> Seq<char> {
    match s {
        ComparisonStatus::Improved => "improved"@,
        ComparisonStatus::Degraded => "degraded"@,
        ComparisonStatus::Unchanged => "unchanged"@,
    }
}

impl ComparisonStatus {
    /// The status as a lowercase word.
    pub fn to_string(&self) -> (r: String)
        ensures
            r@ == spec_status_word(*self),
    {
        let s = match self {
            Self::Improved => "improved",
            Self::Degraded => "degraded",
            Self::Unchanged => "unchanged",
        };
        s.to_owned()
    }
}

/// One finding of a lint rule.
#[derive(Debug)]
pub struct Issue {
    pub file: String,
    pub line: usize,
    pub column: usize,
    pub severity: Severity,
    pub rule: String,
    pub message: String,
}

/// Complexity figures of one function-sized unit.
#[derive(Debug)]
pub struct FunctionComplexity {
    pub name: String,
    pub line: usize,
    pub complexity: usize,
    pub cognitive_complexity: usize,
}

/// Complexity of a file: every unit, and the largest figures among them.
#[derive(Debug)]
pub struct ComplexityResult {
    pub cyclomatic: usize,
    pub cognitive: usize,
    pub functions: Vec<FunctionComplexity>,
}

/// The per-function complexity thresholds used for scoring; `None` means the
/// corresponding rule is disabled and never penalizes.
#[derive(Debug, Clone, Copy, PartialEq, Eq, Structural)]
pub struct ScoringThresholds {
    pub cyclomatic_complexity: Option<usize>,
    pub cognitive_complexity: Option<usize>,
}

/// The points each scoring component contributed: complexity in half points
/// (out of 70), issues and structure in whole points (out of 40 and 25).
#[derive(Debug, Clone, Copy, PartialEq, Eq, Structural)]
pub struct ScoreBreakdown {
    pub complexity_halves: u64,
    pub issues: u64,
    pub structure: u64,
}

/// The score of one file.
#[derive(Debug, Clone, Copy, PartialEq, Eq, Structural)]
pub struct FileScore {
    pub score: i32,
    pub grade: Grade,
    pub breakdown: ScoreBreakdown,
}

/// Everything found in one file.
#[derive(Debug)]
pub struct FileAnalysis {
    pub file: String,
    pub complexity: ComplexityResult,
    pub issues: Vec<Issue>,
    pub score: Option<FileScore>,
    /// True when the grammar could not read the file; such a file is unscored.
    pub unanalyzed: bool,
}

/// The most complex function of a project.
#[derive(Debug)]
pub struct MaxComplexityInfo {
    pub file: String,
    pub function: String,
    pub complexity: usize,
}

/// Number of files that earned each grade.
#[derive(Debug, Clone, Copy, PartialEq, Eq, Structural)]
pub struct GradeDistribution {
    pub a: usize,
    pub b: usize,
    pub c: usize,
    pub d: usize,
    pub f: usize,
}

/// The score of a whole project.
#[derive(Debug, Clone, Copy, PartialEq, Eq, Structural)]
pub struct ProjectScore {
    pub overall: i32,
    pub grade: Grade,
    pub distribution: GradeDistribution,
}

/// Number of issues of each severity.
#[derive(Debug, Clone, Copy, PartialEq, Eq, Structural)]
pub struct SeverityCounts {
    pub error: usize,
    pub warning: usize,
    pub info: usize,
}


/// The rank of a grade, from F (0) to A (4).
pub open spec fn grade_rank(g: Grade) -> int {
    match g {
        Grade::A => 4,
        Grade::B => 3,
        Grade::C => 2,
        Grade::D => 1,
        Grade::F => 0,
    }
}

/// A higher score never earns a lower grade.
pub proof fn a_higher_score_never_earns_a_lower_grade(a: int, b: int)
    requires
        a <= b,
    ensures
        grade_rank(spec_to_grade(a)) <= grade_rank(spec_to_grade(b)),
{
}

} // verus!
