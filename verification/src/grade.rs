//! The student model: name, total marks and subject count, with the derived
//! average, letter grade, description and per-grade fixed texts.
//!
//! Marks are held in thousandths of a mark (milli-marks), so a total such as
//! 89.999 is exact. Displayed values are in hundredths (two decimal digits),
//! rounded half-up.

use vstd::prelude::*;

verus! {

/// The largest total the model accepts, in milli-marks
/// (999,999,999,999.999 marks).
pub const MAX_TOTAL_MARKS_MILLI: u64 = 999_999_999_999_999;

/// The closed set of letter grades.
#[derive(Clone, Copy, PartialEq, Eq, Structural, Debug)]
pub enum Grade {
    A,
    B,
    C,
    D,
}

/// The fixed description of each grade.
pub open spec fn spec_description(g: Grade) -> Seq<char> {
    match g {
        Grade::A => "Excellent"@,
        Grade::B => "Good"@,
        Grade::C => "Satisfactory"@,
        Grade::D => "Needs Improvement"@,
    }
}

/// The fixed performance message of each grade, as printed on the console
/// and embedded in the HTML report.
pub open spec fn spec_performance_message(g: Grade) -> Seq<char> {
    match g {
        Grade::A => "🌟 Outstanding performance! Keep up the excellent work!"@,
        Grade::B => "👍 Good work! You're doing well!"@,
        Grade::C => "📚 Satisfactory performance. There's room for improvement!"@,
        Grade::D => "📖 Focus on your studies. You can do better!"@,
    }
}

/// The fixed performance summary of each grade, as embedded in the boxed
/// plain-text report.
pub open spec fn spec_performance_summary(g: Grade) -> Seq<char> {
    match g {
        Grade::A => "Outstanding performance! Keep up the excellent work!"@,
        Grade::B => "Good work! You're doing well!"@,
        Grade::C => "Satisfactory performance. Room for improvement!"@,
        Grade::D => "Focus on your studies. You can do better!"@,
    }
}

/// The accent color of each grade in the HTML report.
pub open spec fn spec_grade_color(g: Grade) -> Seq<char> {
    match g {
        Grade::A => "#27ae60"@,
        Grade::B => "#f39c12"@,
        Grade::C => "#e67e22"@,
        Grade::D => "#e74c3c"@,
    }
}

/// The letter of each grade.
pub open spec fn spec_grade_letter(g: Grade) -> Seq<char> {
    match g {
        Grade::A => "A"@,
        Grade::B => "B"@,
        Grade::C => "C"@,
        Grade::D => "D"@,
    }
}

impl Grade {
    /// The description of this grade.
    pub fn description(self) -> (r: &'static str)
        ensures
            r@ == spec_description(self),
    {
        match self {
            Grade::A => "Excellent",
            Grade::B => "Good",
            Grade::C => "Satisfactory",
            Grade::D => "Needs Improvement",
        }
    }

    /// The performance message of this grade (console and HTML variant).
    pub fn performance_message(self) -> (r: &'static str)
        ensures
            r@ == spec_performance_message(self),
    {
        match self {
            Grade::A => "🌟 Outstanding performance! Keep up the excellent work!",
            Grade::B => "👍 Good work! You're doing well!",
            Grade::C => "📚 Satisfactory performance. There's room for improvement!",
            Grade::D => "📖 Focus on your studies. You can do better!",
        }
    }

    /// The performance summary of this grade (plain-text report variant).
    pub fn performance_summary(self) -> (r: &'static str)
        ensures
            r@ == spec_performance_summary(self),
    {
        match self {
            Grade::A => "Outstanding performance! Keep up the excellent work!",
            Grade::B => "Good work! You're doing well!",
            Grade::C => "Satisfactory performance. Room for improvement!",
            Grade::D => "Focus on your studies. You can do better!",
        }
    }

    /// The HTML accent color of this grade.
    pub fn color(self) -> (r: &'static str)
        ensures
            r@ == spec_grade_color(self),
    {
        match self {
            Grade::A => "#27ae60",
            Grade::B => "#f39c12",
            Grade::C => "#e67e22",
            Grade::D => "#e74c3c",
        }
    }

    /// The letter of this grade.
    pub fn letter(self) -> (r: &'static str)
        ensures
            r@ == spec_grade_letter(self),
    {
        match self {
            Grade::A => "A",
            Grade::B => "B",
            Grade::C => "C",
            Grade::D => "D",
        }
    }
}

/// One student's record: immutable once constructed.
pub struct Student {
    /// Display name, stored as collected.
    pub name: String,
    /// Total marks in milli-marks (thousandths of a mark).
    pub total_marks_milli: u64,
    /// Number of subjects; positive in every well-formed record.
    pub num_subjects: u32,
}

impl Student {
    /// Well-formedness: a positive subject count and a bounded total.
    pub open spec fn wf(self) -> bool {
        self.num_subjects > 0 && self.total_marks_milli <= MAX_TOTAL_MARKS_MILLI
    }

    /// The total in hundredths of a mark, rounded half-up, as displayed.
    pub open spec fn spec_marks_centi(self) -> int {
        (self.total_marks_milli + 5) / 10
    }

    /// The average in hundredths of a mark, rounded half-up: the displayed
    /// value of `total_marks / num_subjects`.
    pub open spec fn spec_average_centi(self) -> int {
        (self.total_marks_milli + 5 * self.num_subjects) / (10 * self.num_subjects)
    }

    /// The grade of the exact average `total_marks / num_subjects`:
    /// `A` at 90 marks per subject and above, `B` from 75, `C` from 60,
    /// `D` below 60. Each band is closed at its lower bound.
    pub open spec fn spec_grade(self) -> Grade {
        if self.total_marks_milli >= 90_000 * self.num_subjects {
            Grade::A
        } else if self.total_marks_milli >= 75_000 * self.num_subjects {
            Grade::B
        } else if self.total_marks_milli >= 60_000 * self.num_subjects {
            Grade::C
        } else {
            Grade::D
        }
    }

    /// Builds a record from validated input.
    pub fn new(name: String, total_marks_milli: u64, num_subjects: u32) -> (s: Student)
        requires
            num_subjects > 0,
            total_marks_milli <= MAX_TOTAL_MARKS_MILLI,
        ensures
            s.wf(),
            s.name == name,
            s.total_marks_milli == total_marks_milli,
            s.num_subjects == num_subjects,
    {
        Student { name, total_marks_milli, num_subjects }
    }

    /// The displayed total in hundredths of a mark.
    pub fn marks_centi(&self) -> (r: u64)
        requires
            self.wf(),
        ensures
            r as int == self.spec_marks_centi(),
    {
        (self.total_marks_milli + 5) / 10
    }

    /// The displayed average in hundredths of a mark.
    pub fn calculate_average(&self) -> (r: u64)
        requires
            self.wf(),
        ensures
            r as int == self.spec_average_centi(),
    {
        (self.total_marks_milli + 5 * (self.num_subjects as u64)) / (10 * (self.num_subjects as u64))
    }

    /// The letter grade of the exact average.
    pub fn assign_grade(&self) -> (g: Grade)
        requires
            self.wf(),
        ensures
            g == self.spec_grade(),
    {
        let n = self.num_subjects as u64;
        if self.total_marks_milli >= 90_000 * n {
            Grade::A
        } else if self.total_marks_milli >= 75_000 * n {
            Grade::B
        } else if self.total_marks_milli >= 60_000 * n {
            Grade::C
        } else {
            Grade::D
        }
    }

    /// The description of this record's grade.
    pub fn get_grade_description(&self) -> (r: &'static str)
        requires
            self.wf(),
        ensures
            r@ == spec_description(self.spec_grade()),
    {
        self.assign_grade().description()
    }

    /// The performance message of this record's grade.
    pub fn performance_message(&self) -> (r: &'static str)
        requires
            self.wf(),
        ensures
            r@ == spec_performance_message(self.spec_grade()),
    {
        self.assign_grade().performance_message()
    }
}

/// The displayed average is the half-up rounding of the exact average: with
/// `t` the total in milli-marks, `n` the subject count and `a` the average in
/// hundredths, `a` is the unique integer with
/// `10*n*a <= t + 5*n < 10*n*(a + 1)`, i.e. `a = floor((t + 5n) / (10n))`,
/// which places `a/100` within half a hundredth of `t/(1000*n)`.
pub proof fn lemma_average_centi_round(s: Student)
    requires
        s.wf(),
    ensures
        10 * (s.num_subjects as int) * s.spec_average_centi()
            <= s.total_marks_milli + 5 * (s.num_subjects as int),
        s.total_marks_milli + 5 * (s.num_subjects as int)
            < 10 * (s.num_subjects as int) * (s.spec_average_centi() + 1),
{
    let x = s.total_marks_milli + 5 * (s.num_subjects as int);
    let d = 10 * (s.num_subjects as int);
    vstd::arithmetic::div_mod::lemma_fundamental_div_mod(x, d);
    vstd::arithmetic::div_mod::lemma_mod_bound(x, d);
    assert(d * (x / d) + 0 <= d * (x / d) + x % d);
    assert(10 * (s.num_subjects as int) * s.spec_average_centi() == d * (x / d));
    assert(d * (x / d + 1) == d * (x / d) + d) by (nonlinear_arith);
}

/// The description, performance texts, color and letter are total functions
/// of the grade alone, with a fixed mapping over the closed set of grades:
/// records with equal grades get equal derived texts.
pub proof fn lemma_texts_function_of_grade(s1: Student, s2: Student)
    requires
        s1.spec_grade() == s2.spec_grade(),
    ensures
        spec_description(s1.spec_grade()) == spec_description(s2.spec_grade()),
        spec_performance_message(s1.spec_grade()) == spec_performance_message(s2.spec_grade()),
        spec_performance_summary(s1.spec_grade()) == spec_performance_summary(s2.spec_grade()),
        spec_grade_color(s1.spec_grade()) == spec_grade_color(s2.spec_grade()),
        spec_grade_letter(s1.spec_grade()) == spec_grade_letter(s2.spec_grade()),
{
}

/// Every grade's description is one of the four fixed texts, and each grade
/// maps to its own: the mapping is total over the closed enumeration.
pub proof fn lemma_description_total()
    ensures
        spec_description(Grade::A) == "Excellent"@,
        spec_description(Grade::B) == "Good"@,
        spec_description(Grade::C) == "Satisfactory"@,
        spec_description(Grade::D) == "Needs Improvement"@,
        forall|g: Grade|
            spec_description(g) == "Excellent"@ || spec_description(g) == "Good"@
                || spec_description(g) == "Satisfactory"@ || spec_description(g)
                == "Needs Improvement"@,
{
    assert forall|g: Grade|
        spec_description(g) == "Excellent"@ || spec_description(g) == "Good"@
            || spec_description(g) == "Satisfactory"@ || spec_description(g)
            == "Needs Improvement"@ by {
        match g {
            Grade::A => {},
            Grade::B => {},
            Grade::C => {},
            Grade::D => {},
        }
    }
}

} // verus!
