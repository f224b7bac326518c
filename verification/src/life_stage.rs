//! Life stages: the nine ordered phases that a person's age falls into.

use vstd::prelude::*;

verus! {

/// A phase of life, derived from a person's age alone.
///
/// The variants are listed in the order in which a person passes through them.
#[derive(Clone, Copy, Debug, PartialEq, Eq, Structural)]
pub enum LifeStage {
    PreSchool,
    KinderGarden,
    ElementarySchool,
    MiddleSchool,
    HighSchool,
    UnderGraduate,
    Masters,
    Doctorate,
    Working,
}

impl LifeStage {
    /// The youngest age that belongs to this stage.
    pub open spec fn first_age(self) -> int {
        match self {
            LifeStage::PreSchool => 0,
            LifeStage::KinderGarden => 3,
            LifeStage::ElementarySchool => 6,
            LifeStage::MiddleSchool => 12,
            LifeStage::HighSchool => 15,
            LifeStage::UnderGraduate => 18,
            LifeStage::Masters => 22,
            LifeStage::Doctorate => 24,
            LifeStage::Working => 26,
        }
    }

    /// The stage that follows this one, if any.
    pub open spec fn next(self) -> Option<LifeStage> {
        match self {
            LifeStage::PreSchool => Some(LifeStage::KinderGarden),
            LifeStage::KinderGarden => Some(LifeStage::ElementarySchool),
            LifeStage::ElementarySchool => Some(LifeStage::MiddleSchool),
            LifeStage::MiddleSchool => Some(LifeStage::HighSchool),
            LifeStage::HighSchool => Some(LifeStage::UnderGraduate),
            LifeStage::UnderGraduate => Some(LifeStage::Masters),
            LifeStage::Masters => Some(LifeStage::Doctorate),
            LifeStage::Doctorate => Some(LifeStage::Working),
            LifeStage::Working => None,
        }
    }

    /// Whether `age` lies in this stage: at or after its first age and before
    /// the first age of the stage that follows. `Working` has no upper end.
    pub open spec fn covers(self, age: int) -> bool {
        &&& self.first_age() <= age
        &&& match self.next() {
            Some(later) => age < later.first_age(),
            None => true,
        }
    }

    /// The stage of a person of the given age.
    pub open spec fn of_age(age: int) -> LifeStage {
        if age <= 2 {
            LifeStage::PreSchool
        } else if age <= 5 {
            LifeStage::KinderGarden
        } else if age <= 11 {
            LifeStage::ElementarySchool
        } else if age <= 14 {
            LifeStage::MiddleSchool
        } else if age <= 17 {
            LifeStage::HighSchool
        } else if age <= 21 {
            LifeStage::UnderGraduate
        } else if age <= 23 {
            LifeStage::Masters
        } else if age <= 25 {
            LifeStage::Doctorate
        } else {
            LifeStage::Working
        }
    }

    /// Classifies an age. Every age has exactly one stage: the one whose
    /// range of ages holds it.
    pub fn new(age: u8) -> (stage: LifeStage)
        ensures
            stage == Self::of_age(age as int),
            stage.covers(age as int),
    {
        match age {
            0..=2 => LifeStage::PreSchool,
            3..=5 => LifeStage::KinderGarden,
            6..=11 => LifeStage::ElementarySchool,
            12..=14 => LifeStage::MiddleSchool,
            15..=17 => LifeStage::HighSchool,
            18..=21 => LifeStage::UnderGraduate,
            22..=23 => LifeStage::Masters,
            24..=25 => LifeStage::Doctorate,
            _ => LifeStage::Working,
        }
    }

    /// The yearly tuition of this stage.
    pub open spec fn annual_tuition(self) -> int {
        match self {
            LifeStage::PreSchool => 0,
            LifeStage::KinderGarden => 377077int + 17133 + 31962,
            LifeStage::ElementarySchool => 552581int + 200522,
            LifeStage::MiddleSchool => 492209int + 199759,
            LifeStage::HighSchool => 483311int + 184399,
            LifeStage::UnderGraduate => 967288,
            LifeStage::Masters => 776040,
            LifeStage::Doctorate => 628729,
            LifeStage::Working => 0,
        }
    }

    /// What entering this stage costs once, in the year of entry.
    pub open spec fn initial_school_fees(self) -> int {
        match self {
            LifeStage::PreSchool => 0,
            LifeStage::KinderGarden => 109166int + 5483,
            LifeStage::ElementarySchool => 255357int + 52143 + 24446 * 2,
            LifeStage::MiddleSchool => 263020int + 34137 + 23897 * 2,
            LifeStage::HighSchool => 253113int + 39096 + 23322 * 3,
            LifeStage::UnderGraduate => 1643466int - 967288 + 261004 * 3,
            LifeStage::Masters => 76206int + 202598 * 3,
            LifeStage::Doctorate => 51842int + 189623 * 3,
            LifeStage::Working => 0,
        }
    }

    /// Whether a dependent child in this stage is taken to live away from the
    /// household and to be supported there: the three stages of higher
    /// education.
    pub open spec fn supports_living_alone(self) -> bool {
        self is UnderGraduate || self is Masters || self is Doctorate
    }

    /// Yearly tuition of this stage.
    pub fn estimate_annual_tuition(&self) -> (tuition: u32)
        ensures
            tuition == self.annual_tuition(),
    {
        match self {
            LifeStage::PreSchool => 0,
            LifeStage::KinderGarden => 426172,
            LifeStage::ElementarySchool => 753103,
            LifeStage::MiddleSchool => 691968,
            LifeStage::HighSchool => 667710,
            LifeStage::UnderGraduate => 967288,
            LifeStage::Masters => 776040,
            LifeStage::Doctorate => 628729,
            LifeStage::Working => 0,
        }
    }

    /// One-time fees due in the year in which this stage is entered.
    pub fn estimate_initial_school_fees(&self) -> (fees: u32)
        ensures
            fees == self.initial_school_fees(),
    {
        match self {
            LifeStage::PreSchool => 0,
            LifeStage::KinderGarden => 114649,
            LifeStage::ElementarySchool => 356392,
            LifeStage::MiddleSchool => 344951,
            LifeStage::HighSchool => 362175,
            LifeStage::UnderGraduate => 1459190,
            LifeStage::Masters => 684000,
            LifeStage::Doctorate => 620711,
            LifeStage::Working => 0,
        }
    }

    /// Whether a dependent child in this stage may need support for living
    /// alone.
    pub fn might_need_support_living_alone(&self) -> (needed: bool)
        ensures
            needed == self.supports_living_alone(),
    {
        match self {
            LifeStage::UnderGraduate | LifeStage::Masters | LifeStage::Doctorate => true,
            _ => false,
        }
    }
}

/// Every age from zero up belongs to exactly one stage: a stage covers an age
/// if and only if it is the stage that the classification gives.
pub proof fn lemma_stage_of_age_is_the_only_cover(age: int, stage: LifeStage)
    requires
        0 <= age,
    ensures
        stage.covers(age) <==> stage == LifeStage::of_age(age),
{
}

/// The stages follow one another as age grows: an older person is never in an
/// earlier stage than a younger one.
pub proof fn lemma_stage_order_follows_age(younger: int, older: int)
    requires
        0 <= younger <= older,
    ensures
        LifeStage::of_age(younger).first_age() <= LifeStage::of_age(older).first_age(),
{
}

/// A stage begins in exactly one year of a life: the stage at an age differs
/// from the stage one year before if and only if the age is the first of its
/// stage.
pub proof fn lemma_stage_changes_at_first_age(age: int)
    requires
        1 <= age,
    ensures
        LifeStage::of_age(age) != LifeStage::of_age(age - 1) <==> age == LifeStage::of_age(
            age,
        ).first_age(),
{
}

/// Support for living alone begins at one age only: a stage with support
/// follows a stage without it exactly at the first age of `UnderGraduate`.
pub proof fn lemma_support_begins_with_undergraduate(age: int)
    requires
        1 <= age,
    ensures
        (LifeStage::of_age(age).supports_living_alone() && !LifeStage::of_age(
            age - 1,
        ).supports_living_alone()) <==> age == LifeStage::UnderGraduate.first_age(),
{
}

} // verus!
