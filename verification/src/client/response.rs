//! The envelope in which the hub wraps its answers, and what each record type
//! takes out of it.

#![allow(non_camel_case_types)]
#![allow(non_snake_case)]

use vstd::prelude::*;

use crate::types::{
    AcademyInfoItem, ClassInfoItem, ClassRoomInfoItem, ElsTimetableItem, HisTimetableItem,
    MealServiceItem, SchoolAflcoInfoItem, SchoolInfoItem, SchoolMajorInfoItem, SchoolScheduleItem,
};

verus! {

/// The hub's verdict on a request: a machine code and a message.
#[derive(Debug, Clone, PartialEq, Eq)]
pub struct ResultCode {
    pub CODE: String,
    pub MESSAGE: String,
}

/// What an envelope says before its rows: how many rows the whole result has,
/// over all pages, and the hub's verdict.
///
/// A total count of 0 stands for a result without rows, and also for some
/// requests that the hub turned down.
#[derive(Debug, Clone, PartialEq, Eq)]
pub struct ResultHead {
    pub list_total_count: usize,
    pub RESULT: ResultCode,
}

impl ResultHead {
    /// The number of rows in the whole result, over all pages.
    pub fn get_total_count(&self) -> (total_count: usize)
        ensures
            total_count == self.list_total_count,
    {
        self.list_total_count
    }
}

/// The rows of one page, in the order in which the hub sent them.
#[derive(Debug, Clone, PartialEq, Eq)]
pub struct ResultBody<T> {
    pub row: Vec<T>,
}

/// The resources of the hub.
#[derive(Debug, Clone, Copy, PartialEq, Eq, Hash, Structural)]
pub enum Resource {
    SchoolInfo,
    ClassInfo,
    SchoolMajorInfo,
    SchoolAflcoInfo,
    SchoolSchedule,
    ElsTimetable,
    HisTimetable,
    ClassRoomInfo,
    AcademyInfo,
    MealService,
}

impl Resource {
    /// The name under which the hub knows the resource.
    pub open spec fn path_text(&self) -> Seq<char> {
        match self {
            Resource::SchoolInfo => "schoolInfo"@,
            Resource::ClassInfo => "classInfo"@,
            Resource::SchoolMajorInfo => "schoolMajorinfo"@,
            Resource::SchoolAflcoInfo => "schulAflcoinfo"@,
            Resource::SchoolSchedule => "SchoolSchedule"@,
            Resource::ElsTimetable => "elsTimetable"@,
            Resource::HisTimetable => "hisTimetable"@,
            Resource::ClassRoomInfo => "tiClrminfo"@,
            Resource::AcademyInfo => "acaInsTiInfo"@,
            Resource::MealService => "mealServiceDietInfo"@,
        }
    }

    /// The name under which the hub knows the resource: the last part of the
    /// path of its URL, and the name of its envelope.
    pub fn path(&self) -> (path: &'static str)
        ensures
            path@ == self.path_text(),
    {
        match self {
            Resource::SchoolInfo => "schoolInfo",
            Resource::ClassInfo => "classInfo",
            Resource::SchoolMajorInfo => "schoolMajorinfo",
            Resource::SchoolAflcoInfo => "schulAflcoinfo",
            Resource::SchoolSchedule => "SchoolSchedule",
            Resource::ElsTimetable => "elsTimetable",
            Resource::HisTimetable => "hisTimetable",
            Resource::ClassRoomInfo => "tiClrminfo",
            Resource::AcademyInfo => "acaInsTiInfo",
            Resource::MealService => "mealServiceDietInfo",
        }
    }
}

/// An answer of the hub: the head and the rows of one resource, under that
/// resource's name, or the hub's bare verdict.
#[derive(Debug, PartialEq, Eq)]
pub enum ResponseBody {
    Result(ResultCode),
    schoolInfo((ResultHead, ResultBody<SchoolInfoItem>)),
    classInfo((ResultHead, ResultBody<ClassInfoItem>)),
    schoolMajorinfo((ResultHead, ResultBody<SchoolMajorInfoItem>)),
    schulAflcoinfo((ResultHead, ResultBody<SchoolAflcoInfoItem>)),
    SchoolSchedule((ResultHead, ResultBody<SchoolScheduleItem>)),
    elsTimetable((ResultHead, ResultBody<ElsTimetableItem>)),
    hisTimetable((ResultHead, ResultBody<HisTimetableItem>)),
    tiClrminfo((ResultHead, ResultBody<ClassRoomInfoItem>)),
    acaInsTiInfo((ResultHead, ResultBody<AcademyInfoItem>)),
    mealServiceDietInfo((ResultHead, ResultBody<MealServiceItem>)),
}

impl ResponseBody {
    /// The resource under whose name the envelope came; none for a bare
    /// verdict.
    pub open spec fn resource_spec(&self) -> Option<Resource> {
        match self {
            ResponseBody::Result(_) => None,
            ResponseBody::schoolInfo(_) => Some(Resource::SchoolInfo),
            ResponseBody::classInfo(_) => Some(Resource::ClassInfo),
            ResponseBody::schoolMajorinfo(_) => Some(Resource::SchoolMajorInfo),
            ResponseBody::schulAflcoinfo(_) => Some(Resource::SchoolAflcoInfo),
            ResponseBody::SchoolSchedule(_) => Some(Resource::SchoolSchedule),
            ResponseBody::elsTimetable(_) => Some(Resource::ElsTimetable),
            ResponseBody::hisTimetable(_) => Some(Resource::HisTimetable),
            ResponseBody::tiClrminfo(_) => Some(Resource::ClassRoomInfo),
            ResponseBody::acaInsTiInfo(_) => Some(Resource::AcademyInfo),
            ResponseBody::mealServiceDietInfo(_) => Some(Resource::MealService),
        }
    }

    /// The total count in the envelope's head; 0 for a bare verdict.
    pub open spec fn total_count(&self) -> usize {
        match self {
            ResponseBody::Result(_) => 0,
            ResponseBody::schoolInfo(content) => content.0.list_total_count,
            ResponseBody::classInfo(content) => content.0.list_total_count,
            ResponseBody::schoolMajorinfo(content) => content.0.list_total_count,
            ResponseBody::schulAflcoinfo(content) => content.0.list_total_count,
            ResponseBody::SchoolSchedule(content) => content.0.list_total_count,
            ResponseBody::elsTimetable(content) => content.0.list_total_count,
            ResponseBody::hisTimetable(content) => content.0.list_total_count,
            ResponseBody::tiClrminfo(content) => content.0.list_total_count,
            ResponseBody::acaInsTiInfo(content) => content.0.list_total_count,
            ResponseBody::mealServiceDietInfo(content) => content.0.list_total_count,
        }
    }

    /// The resource under whose name the envelope came; none for a bare
    /// verdict.
    pub fn resource(&self) -> (resource: Option<Resource>)
        ensures
            resource == self.resource_spec(),
    {
        match self {
            ResponseBody::Result(_) => None,
            ResponseBody::schoolInfo(_) => Some(Resource::SchoolInfo),
            ResponseBody::classInfo(_) => Some(Resource::ClassInfo),
            ResponseBody::schoolMajorinfo(_) => Some(Resource::SchoolMajorInfo),
            ResponseBody::schulAflcoinfo(_) => Some(Resource::SchoolAflcoInfo),
            ResponseBody::SchoolSchedule(_) => Some(Resource::SchoolSchedule),
            ResponseBody::elsTimetable(_) => Some(Resource::ElsTimetable),
            ResponseBody::hisTimetable(_) => Some(Resource::HisTimetable),
            ResponseBody::tiClrminfo(_) => Some(Resource::ClassRoomInfo),
            ResponseBody::acaInsTiInfo(_) => Some(Resource::AcademyInfo),
            ResponseBody::mealServiceDietInfo(_) => Some(Resource::MealService),
        }
    }
}

/// A record type that knows its place in the envelope.
pub trait ExtractFromResponse: Sized {
    /// The resource whose envelopes carry records of this type.
    spec fn resource() -> Resource;

    /// The rows of an envelope that came under this type's resource.
    spec fn rows(response: ResponseBody) -> Seq<Self>;

    /// The total count and the rows of an envelope that came under this
    /// type's resource. Every other envelope, one of another resource or a
    /// bare verdict, gives 0 and no rows: it is no failure.
    fn extract_from_response(response: ResponseBody) -> (extracted: (usize, Vec<Self>))
        ensures
            response.resource_spec() == Some(Self::resource()) ==> extracted.0
                == response.total_count() && extracted.1@ == Self::rows(response),
            response.resource_spec() != Some(Self::resource()) ==> extracted.0 == 0
                && extracted.1@ == Seq::<Self>::empty(),
    ;
}

/// What a record type takes out of an envelope: the total count and the rows
/// where the envelope came under the type's resource, 0 and no rows where it
/// came under another or is a bare verdict.
pub open spec fn extraction<T: ExtractFromResponse>(response: ResponseBody) -> (usize, Seq<T>) {
    if response.resource_spec() == Some(T::resource()) {
        (response.total_count(), T::rows(response))
    } else {
        (0, Seq::empty())
    }
}

impl ExtractFromResponse for SchoolInfoItem {
    open spec fn resource() -> Resource {
        Resource::SchoolInfo
    }

    open spec fn rows(response: ResponseBody) -> Seq<Self> {
        match response {
            ResponseBody::schoolInfo(content) => content.1.row@,
            _ => Seq::empty(),
        }
    }

    fn extract_from_response(response: ResponseBody) -> (extracted: (usize, Vec<Self>)) {
        if let ResponseBody::schoolInfo((head, data)) = response {
            (head.get_total_count(), data.row)
        } else {
            (0, Vec::new())
        }
    }
}

impl ExtractFromResponse for ClassInfoItem {
    open spec fn resource() -> Resource {
        Resource::ClassInfo
    }

    open spec fn rows(response: ResponseBody) -> Seq<Self> {
        match response {
            ResponseBody::classInfo(content) => content.1.row@,
            _ => Seq::empty(),
        }
    }

    fn extract_from_response(response: ResponseBody) -> (extracted: (usize, Vec<Self>)) {
        if let ResponseBody::classInfo((head, data)) = response {
            (head.get_total_count(), data.row)
        } else {
            (0, Vec::new())
        }
    }
}

impl ExtractFromResponse for SchoolMajorInfoItem {
    open spec fn resource() -> Resource {
        Resource::SchoolMajorInfo
    }

    open spec fn rows(response: ResponseBody) -> Seq<Self> {
        match response {
            ResponseBody::schoolMajorinfo(content) => content.1.row@,
            _ => Seq::empty(),
        }
    }

    fn extract_from_response(response: ResponseBody) -> (extracted: (usize, Vec<Self>)) {
        if let ResponseBody::schoolMajorinfo((head, data)) = response {
            (head.get_total_count(), data.row)
        } else {
            (0, Vec::new())
        }
    }
}

impl ExtractFromResponse for SchoolAflcoInfoItem {
    open spec fn resource() -> Resource {
        Resource::SchoolAflcoInfo
    }

    open spec fn rows(response: ResponseBody) -> Seq<Self> {
        match response {
            ResponseBody::schulAflcoinfo(content) => content.1.row@,
            _ => Seq::empty(),
        }
    }

    fn extract_from_response(response: ResponseBody) -> (extracted: (usize, Vec<Self>)) {
        if let ResponseBody::schulAflcoinfo((head, data)) = response {
            (head.get_total_count(), data.row)
        } else {
            (0, Vec::new())
        }
    }
}

impl ExtractFromResponse for SchoolScheduleItem {
    open spec fn resource() -> Resource {
        Resource::SchoolSchedule
    }

    open spec fn rows(response: ResponseBody) -> Seq<Self> {
        match response {
            ResponseBody::SchoolSchedule(content) => content.1.row@,
            _ => Seq::empty(),
        }
    }

    fn extract_from_response(response: ResponseBody) -> (extracted: (usize, Vec<Self>)) {
        if let ResponseBody::SchoolSchedule((head, data)) = response {
            (head.get_total_count(), data.row)
        } else {
            (0, Vec::new())
        }
    }
}

impl ExtractFromResponse for ElsTimetableItem {
    open spec fn resource() -> Resource {
        Resource::ElsTimetable
    }

    open spec fn rows(response: ResponseBody) -> Seq<Self> {
        match response {
            ResponseBody::elsTimetable(content) => content.1.row@,
            _ => Seq::empty(),
        }
    }

    fn extract_from_response(response: ResponseBody) -> (extracted: (usize, Vec<Self>)) {
        if let ResponseBody::elsTimetable((head, data)) = response {
            (head.get_total_count(), data.row)
        } else {
            (0, Vec::new())
        }
    }
}

impl ExtractFromResponse for HisTimetableItem {
    open spec fn resource() -> Resource {
        Resource::HisTimetable
    }

    open spec fn rows(response: ResponseBody) -> Seq<Self> {
        match response {
            ResponseBody::hisTimetable(content) => content.1.row@,
            _ => Seq::empty(),
        }
    }

    fn extract_from_response(response: ResponseBody) -> (extracted: (usize, Vec<Self>)) {
        if let ResponseBody::hisTimetable((head, data)) = response {
            (head.get_total_count(), data.row)
        } else {
            (0, Vec::new())
        }
    }
}

impl ExtractFromResponse for ClassRoomInfoItem {
    open spec fn resource() -> Resource {
        Resource::ClassRoomInfo
    }

    open spec fn rows(response: ResponseBody) -> Seq<Self> {
        match response {
            ResponseBody::tiClrminfo(content) => content.1.row@,
            _ => Seq::empty(),
        }
    }

    fn extract_from_response(response: ResponseBody) -> (extracted: (usize, Vec<Self>)) {
        if let ResponseBody::tiClrminfo((head, data)) = response {
            (head.get_total_count(), data.row)
        } else {
            (0, Vec::new())
        }
    }
}

impl ExtractFromResponse for AcademyInfoItem {
    open spec fn resource() -> Resource {
        Resource::AcademyInfo
    }

    open spec fn rows(response: ResponseBody) -> Seq<Self> {
        match response {
            ResponseBody::acaInsTiInfo(content) => content.1.row@,
            _ => Seq::empty(),
        }
    }

    fn extract_from_response(response: ResponseBody) -> (extracted: (usize, Vec<Self>)) {
        if let ResponseBody::acaInsTiInfo((head, data)) = response {
            (head.get_total_count(), data.row)
        } else {
            (0, Vec::new())
        }
    }
}

impl ExtractFromResponse for MealServiceItem {
    open spec fn resource() -> Resource {
        Resource::MealService
    }

    open spec fn rows(response: ResponseBody) -> Seq<Self> {
        match response {
            ResponseBody::mealServiceDietInfo(content) => content.1.row@,
            _ => Seq::empty(),
        }
    }

    fn extract_from_response(response: ResponseBody) -> (extracted: (usize, Vec<Self>)) {
        if let ResponseBody::mealServiceDietInfo((head, data)) = response {
            (head.get_total_count(), data.row)
        } else {
            (0, Vec::new())
        }
    }
}

/// Every resource has one record type, and no two resources have the same:
/// an envelope is taken by the extractor of exactly one record type.
pub proof fn lemma_one_extractor_per_resource()
    ensures
        <SchoolInfoItem as ExtractFromResponse>::resource() == Resource::SchoolInfo,
        <ClassInfoItem as ExtractFromResponse>::resource() == Resource::ClassInfo,
        <SchoolMajorInfoItem as ExtractFromResponse>::resource() == Resource::SchoolMajorInfo,
        <SchoolAflcoInfoItem as ExtractFromResponse>::resource() == Resource::SchoolAflcoInfo,
        <SchoolScheduleItem as ExtractFromResponse>::resource() == Resource::SchoolSchedule,
        <ElsTimetableItem as ExtractFromResponse>::resource() == Resource::ElsTimetable,
        <HisTimetableItem as ExtractFromResponse>::resource() == Resource::HisTimetable,
        <ClassRoomInfoItem as ExtractFromResponse>::resource() == Resource::ClassRoomInfo,
        <AcademyInfoItem as ExtractFromResponse>::resource() == Resource::AcademyInfo,
        <MealServiceItem as ExtractFromResponse>::resource() == Resource::MealService,
{
}

} // verus!
