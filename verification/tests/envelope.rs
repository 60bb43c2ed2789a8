use neis_client::client::response::{
    ExtractFromResponse, Resource, ResponseBody, ResultBody, ResultCode, ResultHead,
};
use neis_client::types::{
    AcademyInfoItem, ClassInfoItem, ClassRoomInfoItem, ElsTimetableItem, HisTimetableItem,
    MealServiceItem, SchoolAflcoInfoItem, SchoolInfoItem, SchoolMajorInfoItem, SchoolScheduleItem,
};

fn head(total_count: usize) -> ResultHead {
    ResultHead {
        list_total_count: total_count,
        RESULT: ResultCode {
            CODE: String::from("INFO-000"),
            MESSAGE: String::from("정상 처리되었습니다."),
        },
    }
}

fn major(department: &str) -> SchoolMajorInfoItem {
    SchoolMajorInfoItem {
        ATPT_OFCDC_SC_CODE: String::from("B10"),
        ATPT_OFCDC_SC_NM: String::from("서울특별시교육청"),
        SD_SCHUL_CODE: String::from("7010959"),
        SCHUL_NM: String::from("문현고등학교"),
        DGHT_CRSE_SC_NM: Some(String::from("주간")),
        ORD_SC_NM: Some(String::from("일반계")),
        DDDEP_NM: Some(String::from(department)),
        LOAD_DTM: String::from("20250901"),
    }
}

fn class(name: &str) -> ClassInfoItem {
    ClassInfoItem {
        ATPT_OFCDC_SC_CODE: String::from("B10"),
        ATPT_OFCDC_SC_NM: String::from("서울특별시교육청"),
        SD_SCHUL_CODE: String::from("7010959"),
        SCHUL_NM: String::from("문현고등학교"),
        AY: 2024,
        GRADE: 1,
        DGHT_CRSE_SC_NM: None,
        SCHUL_CRSE_SC_NM: None,
        ORD_SC_NM: None,
        DDDEP_NM: None,
        CLASS_NM: Some(String::from(name)),
        LOAD_DTM: String::from("20240301"),
    }
}

fn majors(total_count: usize) -> ResponseBody {
    ResponseBody::schoolMajorinfo((
        head(total_count),
        ResultBody { row: vec![major("일반학과"), major("미술과")] },
    ))
}

fn bare() -> ResponseBody {
    ResponseBody::Result(ResultCode {
        CODE: String::from("ERROR-290"),
        MESSAGE: String::from("인증키가 유효하지 않습니다."),
    })
}

#[test]
fn head_gives_its_total_count() {
    assert_eq!(head(0).get_total_count(), 0);
    assert_eq!(head(1234).get_total_count(), 1234);
}

#[test]
fn extractor_takes_count_and_rows_of_its_own_resource() {
    let (total_count, rows) = SchoolMajorInfoItem::extract_from_response(majors(42));
    assert_eq!(total_count, 42);
    assert_eq!(rows, vec![major("일반학과"), major("미술과")]);
}

#[test]
fn extractor_keeps_the_order_of_the_rows() {
    let response = ResponseBody::classInfo((
        head(3),
        ResultBody { row: vec![class("3"), class("1"), class("2"), class("1")] },
    ));
    let (total_count, rows) = ClassInfoItem::extract_from_response(response);
    assert_eq!(total_count, 3);
    assert_eq!(rows, vec![class("3"), class("1"), class("2"), class("1")]);
}

#[test]
fn extractor_of_another_resource_finds_nothing() {
    assert_eq!(ClassInfoItem::extract_from_response(majors(42)), (0, vec![]));
    assert_eq!(SchoolInfoItem::extract_from_response(majors(42)), (0, vec![]));
    assert_eq!(SchoolAflcoInfoItem::extract_from_response(majors(42)), (0, vec![]));
    assert_eq!(SchoolScheduleItem::extract_from_response(majors(42)), (0, vec![]));
    assert_eq!(ElsTimetableItem::extract_from_response(majors(42)), (0, vec![]));
    assert_eq!(HisTimetableItem::extract_from_response(majors(42)), (0, vec![]));
    assert_eq!(ClassRoomInfoItem::extract_from_response(majors(42)), (0, vec![]));
    assert_eq!(AcademyInfoItem::extract_from_response(majors(42)), (0, vec![]));
    assert_eq!(MealServiceItem::extract_from_response(majors(42)), (0, vec![]));
}

#[test]
fn extractor_finds_nothing_in_a_bare_verdict() {
    assert_eq!(SchoolMajorInfoItem::extract_from_response(bare()), (0, vec![]));
    assert_eq!(ClassInfoItem::extract_from_response(bare()), (0, vec![]));
}

#[test]
fn extractor_takes_an_empty_page_as_it_is() {
    let response = ResponseBody::schoolMajorinfo((head(7), ResultBody { row: vec![] }));
    assert_eq!(SchoolMajorInfoItem::extract_from_response(response), (7, vec![]));
}

#[test]
fn envelope_knows_its_resource() {
    assert_eq!(majors(1).resource(), Some(Resource::SchoolMajorInfo));
    assert_eq!(bare().resource(), None);
    let classes = ResponseBody::classInfo((head(0), ResultBody { row: vec![] }));
    assert_eq!(classes.resource(), Some(Resource::ClassInfo));
}

#[test]
fn resources_have_the_names_of_the_hub() {
    assert_eq!(Resource::SchoolInfo.path(), "schoolInfo");
    assert_eq!(Resource::ClassInfo.path(), "classInfo");
    assert_eq!(Resource::SchoolMajorInfo.path(), "schoolMajorinfo");
    assert_eq!(Resource::SchoolAflcoInfo.path(), "schulAflcoinfo");
    assert_eq!(Resource::SchoolSchedule.path(), "SchoolSchedule");
    assert_eq!(Resource::ElsTimetable.path(), "elsTimetable");
    assert_eq!(Resource::HisTimetable.path(), "hisTimetable");
    assert_eq!(Resource::ClassRoomInfo.path(), "tiClrminfo");
    assert_eq!(Resource::AcademyInfo.path(), "acaInsTiInfo");
    assert_eq!(Resource::MealService.path(), "mealServiceDietInfo");
}
