//! Request parameters and result records, one pair of types for each resource.
//!
//! The fields of both carry the names that the hub gives them.

use vstd::prelude::*;

use crate::query::urlencoded;

pub mod academy_info;
pub mod class_info;
pub mod class_room_info;
pub mod els_timetable;
pub mod his_timetable;
pub mod meal_service;
pub mod school_aflco_info;
pub mod school_info;
pub mod school_major_info;
pub mod school_schedule;

pub use academy_info::{AcademyInfoItem, AcademyInfoParams};
pub use class_info::{ClassInfoItem, ClassInfoParams};
pub use class_room_info::{ClassRoomInfoItem, ClassRoomInfoParams};
pub use els_timetable::{ElsTimetableItem, ElsTimetableParams};
pub use his_timetable::{HisTimetableItem, HisTimetableParams};
pub use meal_service::{MealServiceItem, MealServiceParams};
pub use school_aflco_info::{SchoolAflcoInfoItem, SchoolAflcoInfoParams};
pub use school_info::{SchoolInfoItem, SchoolInfoParams};
pub use school_major_info::{SchoolMajorInfoItem, SchoolMajorInfoParams};
pub use school_schedule::{SchoolScheduleItem, SchoolScheduleParams};

verus! {

/// A flag that the hub writes as `Y` or `N`.
#[derive(Debug, Clone, Copy, PartialEq, Eq, Hash, Structural)]
pub enum YesOrNo {
    Y,
    N,
}

/// Request parameters that can be written as a query string.
pub trait ToQueryString {
    /// The parameters as name/value pairs, in the order in which they are
    /// written. A required parameter is always among them, an optional one
    /// only where it is set.
    spec fn pairs(&self) -> Seq<(Seq<char>, Seq<char>)>;

    /// The parameters as a query string.
    fn to_query_string(&self) -> (query: String)
        ensures
            query@ == urlencoded(self.pairs()),
    ;
}

} // verus!
