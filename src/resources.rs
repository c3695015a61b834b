//! The resources that the API returns and the wire names of their
//! enumerated fields.
use vstd::prelude::*;

verus! {

/// Whether `a` and `b` hold the same characters.
pub fn same_text(a: &str, b: &str) -> (r: bool)
    ensures
        r == (a@ == b@),
{
    let n = a.unicode_len();
    if n != b.unicode_len() {
        return false;
    }
    let mut i: usize = 0;
    while i < n
        invariant
            n == a@.len(),
            n == b@.len(),
            i <= n,
            a@.subrange(0, i as int) == b@.subrange(0, i as int),
        decreases n - i,
    {
        if a.get_char(i) != b.get_char(i) {
            return false;
        }
        assert(a@.subrange(0, i + 1) =~= a@.subrange(0, i as int).push(a@[i as int]));
        assert(b@.subrange(0, i + 1) =~= b@.subrange(0, i as int).push(b@[i as int]));
        i = i + 1;
    }
    assert(a@ =~= a@.subrange(0, n as int));
    assert(b@ =~= b@.subrange(0, n as int));
    true
}

/// How much of a resource a response holds.
#[derive(Copy, Clone, Debug, PartialEq, Eq, Structural)]
pub enum ResourceState {
    Meta,
    Summary,
    Detail,
}

/// The state that the wire code `c` stands for.
pub open spec fn resource_state_of(c: u64) -> Option<ResourceState> {
    if c == 1 {
        Some(ResourceState::Meta)
    } else if c == 2 {
        Some(ResourceState::Summary)
    } else if c == 3 {
        Some(ResourceState::Detail)
    } else {
        None
    }
}

impl ResourceState {
    /// The wire code of this state.
    pub fn code(&self) -> (r: u64)
        ensures
            resource_state_of(r) == Some(*self),
    {
        match self {
            ResourceState::Meta => 1,
            ResourceState::Summary => 2,
            ResourceState::Detail => 3,
        }
    }

    /// Reads the wire code: 1 meta, 2 summary, 3 detail.
    pub fn from_code(c: u64) -> (r: Option<ResourceState>)
        ensures
            r == resource_state_of(c),
    {
        if c == 1 {
            Some(ResourceState::Meta)
        } else if c == 2 {
            Some(ResourceState::Summary)
        } else if c == 3 {
            Some(ResourceState::Detail)
        } else {
            None
        }
    }
}

/// Activity types.
#[derive(Copy, Clone, Debug, PartialEq, Eq, Structural)]
pub enum ActivityType {
    Ride,
    Run,
    Swim,
    Hike,
    Walk,
    AlpineSki,
    BackcountrySki,
    Canoeing,
    Crossfit,
    EBikeRide,
    Elliptical,
    IceSkate,
    InlineSkate,
    Kayaking,
    Kitesurf,
    NordicSki,
    RockClimbing,
    RollerSki,
    Rowing,
    Snowboard,
    Snowshoe,
    StairStepper,
    StandUpPaddling,
    Surfing,
    WeightTraining,
    Windsurf,
    Workout,
    Yoga,
    /// A type that the library does not know.
    Unknown,
}

/// The variant whose wire name is `s`; `Unknown` for a name not listed.
pub open spec fn activity_type_named(s: Seq<char>) -> ActivityType {
    if s == "Ride"@ {
        ActivityType::Ride
    } else if s == "Run"@ {
        ActivityType::Run
    } else if s == "Swim"@ {
        ActivityType::Swim
    } else if s == "Hike"@ {
        ActivityType::Hike
    } else if s == "Walk"@ {
        ActivityType::Walk
    } else if s == "AlpineSki"@ {
        ActivityType::AlpineSki
    } else if s == "BackcountrySki"@ {
        ActivityType::BackcountrySki
    } else if s == "Canoeing"@ {
        ActivityType::Canoeing
    } else if s == "Crossfit"@ {
        ActivityType::Crossfit
    } else if s == "EBikeRide"@ {
        ActivityType::EBikeRide
    } else if s == "Elliptical"@ {
        ActivityType::Elliptical
    } else if s == "IceSkate"@ {
        ActivityType::IceSkate
    } else if s == "InlineSkate"@ {
        ActivityType::InlineSkate
    } else if s == "Kayaking"@ {
        ActivityType::Kayaking
    } else if s == "Kitesurf"@ {
        ActivityType::Kitesurf
    } else if s == "NordicSki"@ {
        ActivityType::NordicSki
    } else if s == "RockClimbing"@ {
        ActivityType::RockClimbing
    } else if s == "RollerSki"@ {
        ActivityType::RollerSki
    } else if s == "Rowing"@ {
        ActivityType::Rowing
    } else if s == "Snowboard"@ {
        ActivityType::Snowboard
    } else if s == "Snowshoe"@ {
        ActivityType::Snowshoe
    } else if s == "StairStepper"@ {
        ActivityType::StairStepper
    } else if s == "StandUpPaddling"@ {
        ActivityType::StandUpPaddling
    } else if s == "Surfing"@ {
        ActivityType::Surfing
    } else if s == "WeightTraining"@ {
        ActivityType::WeightTraining
    } else if s == "Windsurf"@ {
        ActivityType::Windsurf
    } else if s == "Workout"@ {
        ActivityType::Workout
    } else if s == "Yoga"@ {
        ActivityType::Yoga
    } else {
        ActivityType::Unknown
    }
}

impl ActivityType {
    /// Reads a wire name; a name the library does not know gives `Unknown`.
    pub fn from_name(s: &str) -> (r: ActivityType)
        ensures
            r == activity_type_named(s@),
    {
        if same_text(s, "Ride") {
            ActivityType::Ride
        } else if same_text(s, "Run") {
            ActivityType::Run
        } else if same_text(s, "Swim") {
            ActivityType::Swim
        } else if same_text(s, "Hike") {
            ActivityType::Hike
        } else if same_text(s, "Walk") {
            ActivityType::Walk
        } else if same_text(s, "AlpineSki") {
            ActivityType::AlpineSki
        } else if same_text(s, "BackcountrySki") {
            ActivityType::BackcountrySki
        } else if same_text(s, "Canoeing") {
            ActivityType::Canoeing
        } else if same_text(s, "Crossfit") {
            ActivityType::Crossfit
        } else if same_text(s, "EBikeRide") {
            ActivityType::EBikeRide
        } else if same_text(s, "Elliptical") {
            ActivityType::Elliptical
        } else if same_text(s, "IceSkate") {
            ActivityType::IceSkate
        } else if same_text(s, "InlineSkate") {
            ActivityType::InlineSkate
        } else if same_text(s, "Kayaking") {
            ActivityType::Kayaking
        } else if same_text(s, "Kitesurf") {
            ActivityType::Kitesurf
        } else if same_text(s, "NordicSki") {
            ActivityType::NordicSki
        } else if same_text(s, "RockClimbing") {
            ActivityType::RockClimbing
        } else if same_text(s, "RollerSki") {
            ActivityType::RollerSki
        } else if same_text(s, "Rowing") {
            ActivityType::Rowing
        } else if same_text(s, "Snowboard") {
            ActivityType::Snowboard
        } else if same_text(s, "Snowshoe") {
            ActivityType::Snowshoe
        } else if same_text(s, "StairStepper") {
            ActivityType::StairStepper
        } else if same_text(s, "StandUpPaddling") {
            ActivityType::StandUpPaddling
        } else if same_text(s, "Surfing") {
            ActivityType::Surfing
        } else if same_text(s, "WeightTraining") {
            ActivityType::WeightTraining
        } else if same_text(s, "Windsurf") {
            ActivityType::Windsurf
        } else if same_text(s, "Workout") {
            ActivityType::Workout
        } else if same_text(s, "Yoga") {
            ActivityType::Yoga
        } else {
            ActivityType::Unknown
        }
    }
}

/// Types of sports.
#[allow(non_camel_case_types)]
#[derive(Copy, Clone, Debug, PartialEq, Eq, Structural)]
pub enum SportType {
    cycling,
    running,
    triathlon,
    /// Any other sport, and a name that the library does not know.
    other,
}

/// The variant whose wire name is `s`; `other` for a name not listed.
pub open spec fn sport_type_named(s: Seq<char>) -> SportType {
    if s == "cycling"@ {
        SportType::cycling
    } else if s == "running"@ {
        SportType::running
    } else if s == "triathlon"@ {
        SportType::triathlon
    } else {
        SportType::other
    }
}

impl SportType {
    /// Reads a wire name; a name the library does not know gives `other`.
    pub fn from_name(s: &str) -> (r: SportType)
        ensures
            r == sport_type_named(s@),
    {
        if same_text(s, "cycling") {
            SportType::cycling
        } else if same_text(s, "running") {
            SportType::running
        } else if same_text(s, "triathlon") {
            SportType::triathlon
        } else {
            SportType::other
        }
    }
}

/// Types of clubs.
#[allow(non_camel_case_types)]
#[derive(Copy, Clone, Debug, PartialEq, Eq, Structural)]
pub enum ClubType {
    casual_club,
    racing_team,
    shop,
    company,
    /// Any other club, and a name that the library does not know.
    other,
}

/// The variant whose wire name is `s`; `other` for a name not listed.
pub open spec fn club_type_named(s: Seq<char>) -> ClubType {
    if s == "casual_club"@ {
        ClubType::casual_club
    } else if s == "racing_team"@ {
        ClubType::racing_team
    } else if s == "shop"@ {
        ClubType::shop
    } else if s == "company"@ {
        ClubType::company
    } else {
        ClubType::other
    }
}

impl ClubType {
    /// Reads a wire name; a name the library does not know gives `other`.
    pub fn from_name(s: &str) -> (r: ClubType)
        ensures
            r == club_type_named(s@),
    {
        if same_text(s, "casual_club") {
            ClubType::casual_club
        } else if same_text(s, "racing_team") {
            ClubType::racing_team
        } else if same_text(s, "shop") {
            ClubType::shop
        } else if same_text(s, "company") {
            ClubType::company
        } else {
            ClubType::other
        }
    }
}

/// Frame types for bikes.
#[derive(Copy, Clone, Debug, PartialEq, Eq, Structural)]
pub enum FrameType {
    MTB,
    Cross,
    Road,
    TimeTrial,
    /// A frame that the library does not know.
    Unknown,
}

/// The variant whose wire name is `s`; `Unknown` for a name not listed.
pub open spec fn frame_type_named(s: Seq<char>) -> FrameType {
    if s == "MTB"@ {
        FrameType::MTB
    } else if s == "Cross"@ {
        FrameType::Cross
    } else if s == "Road"@ {
        FrameType::Road
    } else if s == "TimeTrial"@ {
        FrameType::TimeTrial
    } else {
        FrameType::Unknown
    }
}

impl FrameType {
    /// Reads a wire name; a name the library does not know gives `Unknown`.
    pub fn from_name(s: &str) -> (r: FrameType)
        ensures
            r == frame_type_named(s@),
    {
        if same_text(s, "MTB") {
            FrameType::MTB
        } else if same_text(s, "Cross") {
            FrameType::Cross
        } else if same_text(s, "Road") {
            FrameType::Road
        } else if same_text(s, "TimeTrial") {
            FrameType::TimeTrial
        } else {
            FrameType::Unknown
        }
    }
}

/// Kinds of workout.
#[derive(Copy, Clone, Debug, PartialEq, Eq, Structural)]
pub enum WorkoutType {
    DefaultRun,
    RaceRun,
    LongRun,
    WorkoutRun,
    DefaultRide,
    RaceRide,
    WorkoutRide,
}

/// The wire code of a workout type.
pub open spec fn workout_code(w: WorkoutType) -> u64 {
    match w {
        WorkoutType::DefaultRun => 0,
        WorkoutType::RaceRun => 1,
        WorkoutType::LongRun => 2,
        WorkoutType::WorkoutRun => 3,
        WorkoutType::DefaultRide => 10,
        WorkoutType::RaceRide => 11,
        WorkoutType::WorkoutRide => 12,
    }
}

impl WorkoutType {
    /// The wire code of this workout type.
    pub fn code(&self) -> (r: u64)
        ensures
            r == workout_code(*self),
    {
        match self {
            WorkoutType::DefaultRun => 0,
            WorkoutType::RaceRun => 1,
            WorkoutType::LongRun => 2,
            WorkoutType::WorkoutRun => 3,
            WorkoutType::DefaultRide => 10,
            WorkoutType::RaceRide => 11,
            WorkoutType::WorkoutRide => 12,
        }
    }

    /// The workout type with wire code `c`, if there is one.
    pub fn from_code(c: u64) -> (r: Option<WorkoutType>)
        ensures
            match r {
                Some(w) => workout_code(w) == c,
                None => forall|w: WorkoutType| workout_code(w) != c,
            },
    {
        if c == 0 {
            Some(WorkoutType::DefaultRun)
        } else if c == 1 {
            Some(WorkoutType::RaceRun)
        } else if c == 2 {
            Some(WorkoutType::LongRun)
        } else if c == 3 {
            Some(WorkoutType::WorkoutRun)
        } else if c == 10 {
            Some(WorkoutType::DefaultRide)
        } else if c == 11 {
            Some(WorkoutType::RaceRide)
        } else if c == 12 {
            Some(WorkoutType::WorkoutRide)
        } else {
            None
        }
    }
}

/// A split of an activity; the API's fields for it are not read.
#[derive(Copy, Clone, Debug)]
pub struct Split;

/// A group of athletes. Only members of a private club can read its details.
/// Fields other than the id, state and name may be absent.
#[derive(Debug)]
pub struct Club {
    pub id: i32,
    pub resource_state: ResourceState,
    pub name: String,
    pub profile_medium: Option<String>,
    pub profile: Option<String>,
    pub cover_photo: Option<String>,
    pub cover_photo_small: Option<String>,
    pub sport_type: Option<SportType>,
    pub city: Option<String>,
    pub state: Option<String>,
    pub country: Option<String>,
    pub private: Option<bool>,
    pub member_count: Option<i32>,
    pub featured: Option<bool>,
    pub verified: Option<bool>,
    pub url: Option<String>,
    pub description: Option<String>,
    pub club_type: Option<ClubType>,
    pub membership: Option<String>,
    pub admin: Option<bool>,
    pub owner: Option<bool>,
    pub following_count: Option<i32>,
}

} // verus!
