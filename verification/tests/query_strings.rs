use neis_client::query::QueryWriter;
use neis_client::types::{
    AcademyInfoParams, ClassInfoParams, ClassRoomInfoParams, ElsTimetableParams,
    HisTimetableParams, MealServiceParams, SchoolAflcoInfoParams, SchoolInfoParams,
    SchoolMajorInfoParams, SchoolScheduleParams, ToQueryString,
};

#[test]
fn writer_without_pairs_writes_nothing() {
    assert_eq!(QueryWriter::new().finish(), "");
}

#[test]
fn writer_joins_name_and_value_with_an_equals_sign() {
    let mut writer = QueryWriter::new();
    writer.pair("AY", "2024");
    assert_eq!(writer.finish(), "AY=2024");
}

#[test]
fn writer_separates_pairs_with_ampersands() {
    let mut writer = QueryWriter::new();
    writer.pair("a", "1");
    writer.pair("b", "2");
    writer.pair("a", "3");
    assert_eq!(writer.finish(), "a=1&b=2&a=3");
}

#[test]
fn writer_encodes_names_and_values() {
    let mut writer = QueryWriter::new();
    writer.pair("foo", "bar & baz");
    writer.pair("saison", "Été+hiver");
    assert_eq!(writer.finish(), "foo=bar+%26+baz&saison=%C3%89t%C3%A9%2Bhiver");
    let mut writer = QueryWriter::new();
    writer.pair("a=b&c", "100%");
    assert_eq!(writer.finish(), "a%3Db%26c=100%25");
}

#[test]
fn writer_leaves_letters_digits_and_four_marks_unchanged() {
    let mut writer = QueryWriter::new();
    writer.pair("AZaz09", "*-._");
    assert_eq!(writer.finish(), "AZaz09=*-._");
}

#[test]
fn writer_writes_other_bytes_as_upper_case_hexadecimal() {
    let mut writer = QueryWriter::new();
    writer.pair("marks", "/?#[]@!$'(),;:~");
    writer.pair("breaks", "\n\t");
    writer.pair("face", "😀");
    assert_eq!(
        writer.finish(),
        "marks=%2F%3F%23%5B%5D%40%21%24%27%28%29%2C%3B%3A%7E&breaks=%0A%09&face=%F0%9F%98%80"
    );
}

#[test]
fn writer_keeps_empty_names_and_values() {
    let mut writer = QueryWriter::new();
    writer.pair("", "");
    writer.pair("a", "");
    writer.pair("", "b");
    assert_eq!(writer.finish(), "=&a=&=b");
}

#[test]
fn writer_skips_an_absent_optional_value() {
    let mut writer = QueryWriter::new();
    writer.optional("a", &None);
    writer.optional("b", &Some(String::from("x y")));
    writer.optional("c", &None);
    writer.optional("d", &Some(String::new()));
    assert_eq!(writer.finish(), "b=x+y&d=");
}

#[test]
fn school_info_without_parameters_is_the_empty_query() {
    assert_eq!(SchoolInfoParams::default().to_query_string(), "");
}

#[test]
fn school_info_by_code() {
    assert_eq!(SchoolInfoParams::school_code("7010959").to_query_string(), "SD_SCHUL_CODE=7010959");
}

#[test]
fn school_info_with_every_parameter() {
    let params = SchoolInfoParams {
        ATPT_OFCDC_SC_CODE: Some(String::from("B10")),
        SD_SCHUL_CODE: Some(String::from("7010959")),
        SCHUL_NM: Some(String::from("문현고등학교")),
        SCHUL_KND_SC_NM: Some(String::from("고등학교")),
        LCTN_SC_NM: Some(String::from("서울특별시")),
        FOND_SC_NM: Some(String::from("공립")),
    };
    assert_eq!(
        params.to_query_string(),
        "ATPT_OFCDC_SC_CODE=B10&SD_SCHUL_CODE=7010959\
         &SCHUL_NM=%EB%AC%B8%ED%98%84%EA%B3%A0%EB%93%B1%ED%95%99%EA%B5%90\
         &SCHUL_KND_SC_NM=%EA%B3%A0%EB%93%B1%ED%95%99%EA%B5%90\
         &LCTN_SC_NM=%EC%84%9C%EC%9A%B8%ED%8A%B9%EB%B3%84%EC%8B%9C\
         &FOND_SC_NM=%EA%B3%B5%EB%A6%BD"
    );
}

#[test]
fn class_info_query() {
    let params = ClassInfoParams::new("B10", "7010959");
    assert_eq!(params.to_query_string(), "ATPT_OFCDC_SC_CODE=B10&SD_SCHUL_CODE=7010959");
    let params = params.ay(2024).grade(1);
    assert_eq!(
        params.to_query_string(),
        "ATPT_OFCDC_SC_CODE=B10&SD_SCHUL_CODE=7010959&AY=2024&GRADE=1"
    );
}

#[test]
fn class_info_serializer_takes_more_pairs() {
    let mut params = ClassInfoParams::new("B10", "7010959").grade(3);
    params.DDDEP_NM = Some(String::from("일반 학과"));
    let mut writer = params.to_serializer();
    writer.pair("pIndex", "2");
    assert_eq!(
        writer.finish(),
        "ATPT_OFCDC_SC_CODE=B10&SD_SCHUL_CODE=7010959&GRADE=3\
         &DDDEP_NM=%EC%9D%BC%EB%B0%98+%ED%95%99%EA%B3%BC&pIndex=2"
    );
}

#[test]
fn school_major_info_query() {
    let params = SchoolMajorInfoParams::new("B10");
    assert_eq!(params.to_query_string(), "ATPT_OFCDC_SC_CODE=B10");
    let mut params = params.school_code("7010959");
    params.ORD_SC_NM = Some(String::from("일반계"));
    assert_eq!(
        params.to_query_string(),
        "ATPT_OFCDC_SC_CODE=B10&SD_SCHUL_CODE=7010959&ORD_SC_NM=%EC%9D%BC%EB%B0%98%EA%B3%84"
    );
}

#[test]
fn school_aflco_info_query() {
    let mut params = SchoolAflcoInfoParams::new("B10").school_code("7010959");
    params.DGHT_CRSE_SC_NM = Some(String::from("주간"));
    assert_eq!(
        params.to_query_string(),
        "ATPT_OFCDC_SC_CODE=B10&SD_SCHUL_CODE=7010959&DGHT_CRSE_SC_NM=%EC%A3%BC%EA%B0%84"
    );
}

#[test]
fn school_schedule_query() {
    let params = SchoolScheduleParams::new("B10", "7010959").from_ymd(2024, 3, 1).to_ymd(2024, 12, 31);
    assert_eq!(
        params.to_query_string(),
        "ATPT_OFCDC_SC_CODE=B10&SD_SCHUL_CODE=7010959&AA_FROM_YMD=20240301&AA_TO_YMD=20241231"
    );
    let params = SchoolScheduleParams::new("B10", "7010959").ymd(2024, 3, 9);
    assert_eq!(
        params.to_query_string(),
        "ATPT_OFCDC_SC_CODE=B10&SD_SCHUL_CODE=7010959&AA_YMD=20240309"
    );
}

#[test]
fn els_timetable_query_keeps_the_order_of_the_parameters() {
    let mut params = ElsTimetableParams::new("B10", "7130126")
        .to_ymd(2024, 9, 7)
        .from_ymd(2024, 9, 1)
        .perio(4)
        .grade(6)
        .ymd(2024, 9, 3)
        .sem(2)
        .ay(2024);
    params.CLASS_NM = Some(String::from("1"));
    assert_eq!(
        params.to_query_string(),
        "ATPT_OFCDC_SC_CODE=B10&SD_SCHUL_CODE=7130126&AY=2024&SEM=2&ALL_TI_YMD=20240903\
         &GRADE=6&CLASS_NM=1&PERIO=4&TI_FROM_YMD=20240901&TI_TO_YMD=20240907"
    );
}

#[test]
fn his_timetable_query_with_every_parameter() {
    let mut params = HisTimetableParams::new("B10", "7010959")
        .ay(2023)
        .sem(2)
        .ymd(2023, 8, 21)
        .grade(3)
        .from_ymd(2023, 8, 21)
        .to_ymd(2023, 8, 25);
    params.DGHT_CRSE_SC_NM = Some(String::from("주간"));
    params.ORD_SC_NM = Some(String::from("일반계"));
    params.DDDEP_NM = Some(String::from("일반학과"));
    params.CLRM_NM = Some(String::from("301"));
    params.CLASS_NM = Some(String::from("1"));
    assert_eq!(
        params.to_query_string(),
        "ATPT_OFCDC_SC_CODE=B10&SD_SCHUL_CODE=7010959&AY=2023&SEM=2&ALL_TI_YMD=20230821\
         &DGHT_CRSE_SC_NM=%EC%A3%BC%EA%B0%84&ORD_SC_NM=%EC%9D%BC%EB%B0%98%EA%B3%84\
         &DDDEP_NM=%EC%9D%BC%EB%B0%98%ED%95%99%EA%B3%BC&GRADE=3&CLRM_NM=301&CLASS_NM=1\
         &TI_FROM_YMD=20230821&TI_TO_YMD=20230825"
    );
}

#[test]
fn class_room_info_query() {
    let mut params = ClassRoomInfoParams::new("B10", "7010959").sem(1).grade(2).ay(2024);
    params.SCHUL_CRSE_SC_NM = Some(String::from("고등학교"));
    assert_eq!(
        params.to_query_string(),
        "ATPT_OFCDC_SC_CODE=B10&SD_SCHUL_CODE=7010959&AY=2024&GRADE=2&SEM=1\
         &SCHUL_CRSE_SC_NM=%EA%B3%A0%EB%93%B1%ED%95%99%EA%B5%90"
    );
}

#[test]
fn academy_info_query() {
    let mut params = AcademyInfoParams::new("B10");
    assert_eq!(params.to_query_string(), "ATPT_OFCDC_SC_CODE=B10");
    params.ADMST_ZONE_NM = Some(String::from("강남구"));
    params.ACA_ASNUM = Some(String::from("3000024877"));
    params.ACA_NM = Some(String::from("A&B math+ 1*2-3.4_5~"));
    params.LE_CRSE_NM = Some(String::from("미술"));
    assert_eq!(
        params.to_query_string(),
        "ATPT_OFCDC_SC_CODE=B10&ADMST_ZONE_NM=%EA%B0%95%EB%82%A8%EA%B5%AC&ACA_ASNUM=3000024877\
         &ACA_NM=A%26B+math%2B+1*2-3.4_5%7E&LE_CRSE_NM=%EB%AF%B8%EC%88%A0"
    );
}

#[test]
fn meal_service_query() {
    let mut params = MealServiceParams::new("B10", "7031115").from_ymd(2025, 1, 1);
    assert_eq!(
        params.to_query_string(),
        "ATPT_OFCDC_SC_CODE=B10&SD_SCHUL_CODE=7031115&MLSV_FROM_YMD=20250101"
    );
    params.MMEAL_SC_CODE = Some(String::from("2"));
    let params = params.ymd(2025, 1, 2).to_ymd(2025, 1, 31);
    assert_eq!(
        params.to_query_string(),
        "ATPT_OFCDC_SC_CODE=B10&SD_SCHUL_CODE=7031115&MMEAL_SC_CODE=2&MLSV_YMD=20250102\
         &MLSV_FROM_YMD=20250101&MLSV_TO_YMD=20250131"
    );
}

#[test]
fn required_parameters_are_written_even_when_empty() {
    assert_eq!(
        MealServiceParams::new("", "").to_query_string(),
        "ATPT_OFCDC_SC_CODE=&SD_SCHUL_CODE="
    );
}
