use vstd::prelude::*;

verus! {

/// The grade on the score screen.
#[derive(Clone, Copy, PartialEq, Eq, Structural, Debug)]
pub enum Grade {
    SPlus,
    A,
    B,
    C,
}

pub open spec fn grade_of(accuracy: u32) -> Grade {
    if 90 <= accuracy <= 100 {
        Grade::SPlus
    } else if 75 <= accuracy <= 89 {
        Grade::A
    } else if 50 <= accuracy <= 74 {
        Grade::B
    } else {
        Grade::C
    }
}

/// Rank of a grade, higher is better.
pub open spec fn grade_rank(g: Grade) -> int {
    match g {
        Grade::SPlus => 3,
        Grade::A => 2,
        Grade::B => 1,
        Grade::C => 0,
    }
}

/// The grade for a hit accuracy in whole percent: 90 to 100 is S+, 75 to
/// 89 is A, 50 to 74 is B, anything else (including above 100) is C.
pub fn grade_for_accuracy(accuracy: u32) -> (g: Grade)
    ensures
        g == grade_of(accuracy),
{
    if 90 <= accuracy && accuracy <= 100 {
        Grade::SPlus
    } else if 75 <= accuracy && accuracy <= 89 {
        Grade::A
    } else if 50 <= accuracy && accuracy <= 74 {
        Grade::B
    } else {
        Grade::C
    }
}

impl Grade {
    /// The text shown for the grade.
    pub fn label(&self) -> (s: &'static str)
        ensures
            *self == Grade::SPlus ==> s@ == "S+ (Certified Pookie Master)"@,
            *self == Grade::A ==> s@ == "A (Awesome Pookie)"@,
            *self == Grade::B ==> s@ == "B (Brave Pookie)"@,
            *self == Grade::C ==> s@ == "C (Needs More Practice :3)"@,
    {
        match self {
            Grade::SPlus => "S+ (Certified Pookie Master)",
            Grade::A => "A (Awesome Pookie)",
            Grade::B => "B (Brave Pookie)",
            Grade::C => "C (Needs More Practice :3)",
        }
    }
}

/// Up to a perfect score, better accuracy never earns a worse grade.
pub proof fn lemma_grade_monotone(a: u32, b: u32)
    requires
        a <= b <= 100,
    ensures
        grade_rank(grade_of(a)) <= grade_rank(grade_of(b)),
{
}

} // verus!
