use neis_client::types::{
    AcademyInfoParams, ClassInfoParams, ClassRoomInfoParams, ElsTimetableParams,
    HisTimetableParams, MealServiceParams, SchoolAflcoInfoParams, SchoolInfoParams,
    SchoolMajorInfoParams, SchoolScheduleItem, SchoolScheduleParams, YesOrNo,
};

fn text(value: &str) -> Option<String> {
    Some(String::from(value))
}

#[test]
fn academy_info_new_sets_the_office_only() {
    let params = AcademyInfoParams::new("B10");
    assert_eq!(params.ATPT_OFCDC_SC_CODE, "B10");
    assert_eq!(params.ADMST_ZONE_NM, None);
    assert_eq!(params.ACA_ASNUM, None);
    assert_eq!(params.ACA_NM, None);
    assert_eq!(params.REALM_SC_NM, None);
    assert_eq!(params.LE_ORD_NM, None);
    assert_eq!(params.LE_CRSE_NM, None);
}

#[test]
fn class_info_builders() {
    let params = ClassInfoParams::new("B10", "7010959");
    assert_eq!(params.ATPT_OFCDC_SC_CODE, "B10");
    assert_eq!(params.SD_SCHUL_CODE, "7010959");
    assert_eq!((&params.AY, &params.GRADE), (&None, &None));
    assert_eq!(params.DGHT_CRSE_SC_NM, None);
    assert_eq!(params.SCHUL_CRSE_SC_NM, None);
    assert_eq!(params.ORD_SC_NM, None);
    assert_eq!(params.DDDEP_NM, None);
    let params = params.ay(2024);
    assert_eq!((&params.AY, &params.GRADE), (&text("2024"), &None));
    let params = params.grade(3);
    assert_eq!((&params.AY, &params.GRADE), (&text("2024"), &text("3")));
    assert_eq!(params.ATPT_OFCDC_SC_CODE, "B10");
    assert_eq!(params.SD_SCHUL_CODE, "7010959");
}

#[test]
fn a_builder_called_twice_keeps_the_later_value() {
    let params = ClassInfoParams::new("B10", "7010959").grade(1).grade(2);
    assert_eq!(params.GRADE, text("2"));
}

#[test]
fn years_are_written_with_their_sign() {
    assert_eq!(ClassInfoParams::new("B10", "1").ay(-1).AY, text("-1"));
    assert_eq!(ClassInfoParams::new("B10", "1").ay(0).AY, text("0"));
    assert_eq!(ClassInfoParams::new("B10", "1").ay(i32::MAX).AY, text("2147483647"));
    assert_eq!(ClassInfoParams::new("B10", "1").ay(i32::MIN).AY, text("-2147483648"));
}

#[test]
fn class_room_info_builders() {
    let params = ClassRoomInfoParams::new("B10", "7010959");
    assert_eq!(params.ATPT_OFCDC_SC_CODE, "B10");
    assert_eq!(params.SD_SCHUL_CODE, "7010959");
    assert_eq!((&params.AY, &params.GRADE, &params.SEM), (&None, &None, &None));
    assert_eq!(params.SCHUL_CRSE_SC_NM, None);
    assert_eq!(params.DGHT_CRSE_SC_NM, None);
    assert_eq!(params.ORD_SC_NM, None);
    assert_eq!(params.DDDEP_NM, None);
    let params = params.sem(2).ay(2025).grade(255);
    assert_eq!(
        (&params.AY, &params.GRADE, &params.SEM),
        (&text("2025"), &text("255"), &text("2"))
    );
}

#[test]
fn els_timetable_builders() {
    let params = ElsTimetableParams::new("B10", "7130126");
    assert_eq!(params.ATPT_OFCDC_SC_CODE, "B10");
    assert_eq!(params.SD_SCHUL_CODE, "7130126");
    assert_eq!((&params.AY, &params.SEM, &params.ALL_TI_YMD), (&None, &None, &None));
    assert_eq!((&params.GRADE, &params.CLASS_NM, &params.PERIO), (&None, &None, &None));
    assert_eq!((&params.TI_FROM_YMD, &params.TI_TO_YMD), (&None, &None));
    let params = params.grade(6).sem(2);
    assert_eq!((&params.GRADE, &params.SEM), (&text("6"), &text("2")));
    let params = params.ay(2024).perio(0).ymd(2024, 9, 3);
    assert_eq!(params.AY, text("2024"));
    assert_eq!(params.PERIO, text("0"));
    assert_eq!(params.ALL_TI_YMD, text("20240903"));
    let params = params.from_ymd(2024, 9, 1).to_ymd(2024, 10, 15);
    assert_eq!(params.TI_FROM_YMD, text("20240901"));
    assert_eq!(params.TI_TO_YMD, text("20241015"));
    assert_eq!(params.ALL_TI_YMD, text("20240903"));
    assert_eq!(params.CLASS_NM, None);
}

#[test]
fn his_timetable_builders() {
    let params = HisTimetableParams::new("B10", "7010959");
    assert_eq!(params.ATPT_OFCDC_SC_CODE, "B10");
    assert_eq!(params.SD_SCHUL_CODE, "7010959");
    assert_eq!((&params.AY, &params.SEM, &params.ALL_TI_YMD), (&None, &None, &None));
    assert_eq!((&params.DGHT_CRSE_SC_NM, &params.ORD_SC_NM, &params.DDDEP_NM), (&None, &None, &None));
    assert_eq!((&params.GRADE, &params.CLRM_NM, &params.CLASS_NM), (&None, &None, &None));
    assert_eq!((&params.TI_FROM_YMD, &params.TI_TO_YMD), (&None, &None));
    let params = params.grade(3).sem(2).ay(2023);
    assert_eq!((&params.AY, &params.SEM, &params.GRADE), (&text("2023"), &text("2"), &text("3")));
    let params = params.ymd(2023, 8, 21).from_ymd(2023, 8, 1).to_ymd(2023, 8, 255);
    assert_eq!(params.ALL_TI_YMD, text("20230821"));
    assert_eq!(params.TI_FROM_YMD, text("20230801"));
    assert_eq!(params.TI_TO_YMD, text("202308255"));
}

#[test]
fn meal_service_builders() {
    let params = MealServiceParams::new("B10", "7031115");
    assert_eq!(params.ATPT_OFCDC_SC_CODE, "B10");
    assert_eq!(params.SD_SCHUL_CODE, "7031115");
    assert_eq!((&params.MMEAL_SC_CODE, &params.MLSV_YMD), (&None, &None));
    assert_eq!((&params.MLSV_FROM_YMD, &params.MLSV_TO_YMD), (&None, &None));
    let params = params.from_ymd(2025, 1, 1);
    assert_eq!(params.MLSV_FROM_YMD, text("20250101"));
    assert_eq!((&params.MLSV_YMD, &params.MLSV_TO_YMD), (&None, &None));
    let params = params.ymd(2021, 1, 4).to_ymd(2025, 12, 31);
    assert_eq!(params.MLSV_YMD, text("20210104"));
    assert_eq!(params.MLSV_TO_YMD, text("20251231"));
    assert_eq!(params.MLSV_FROM_YMD, text("20250101"));
    assert_eq!(params.MMEAL_SC_CODE, None);
}

#[test]
fn school_aflco_info_builders() {
    let params = SchoolAflcoInfoParams::new("B10");
    assert_eq!(params.ATPT_OFCDC_SC_CODE, "B10");
    assert_eq!((&params.SD_SCHUL_CODE, &params.DGHT_CRSE_SC_NM), (&None, &None));
    let params = params.school_code("7010959");
    assert_eq!(params.ATPT_OFCDC_SC_CODE, "B10");
    assert_eq!((&params.SD_SCHUL_CODE, &params.DGHT_CRSE_SC_NM), (&text("7010959"), &None));
}

#[test]
fn school_info_by_code_sets_the_code_only() {
    let params = SchoolInfoParams::school_code("7010959");
    assert_eq!(params.SD_SCHUL_CODE, text("7010959"));
    assert_eq!(params.ATPT_OFCDC_SC_CODE, None);
    assert_eq!(params.SCHUL_NM, None);
    assert_eq!(params.SCHUL_KND_SC_NM, None);
    assert_eq!(params.LCTN_SC_NM, None);
    assert_eq!(params.FOND_SC_NM, None);
}

#[test]
fn school_info_default_sets_nothing() {
    let params = SchoolInfoParams::default();
    assert_eq!(params.ATPT_OFCDC_SC_CODE, None);
    assert_eq!(params.SD_SCHUL_CODE, None);
    assert_eq!(params.SCHUL_NM, None);
    assert_eq!(params.SCHUL_KND_SC_NM, None);
    assert_eq!(params.LCTN_SC_NM, None);
    assert_eq!(params.FOND_SC_NM, None);
}

#[test]
fn school_major_info_builders() {
    let params = SchoolMajorInfoParams::new("B10");
    assert_eq!(params.ATPT_OFCDC_SC_CODE, "B10");
    assert_eq!(params.SD_SCHUL_CODE, None);
    assert_eq!((&params.DGHT_CRSE_SC_NM, &params.ORD_SC_NM), (&None, &None));
    let params = params.school_code("7010959");
    assert_eq!(params.SD_SCHUL_CODE, text("7010959"));
    assert_eq!((&params.DGHT_CRSE_SC_NM, &params.ORD_SC_NM), (&None, &None));
}

#[test]
fn school_schedule_builders() {
    let params = SchoolScheduleParams::new("B10", "7010959");
    assert_eq!(params.ATPT_OFCDC_SC_CODE, "B10");
    assert_eq!(params.SD_SCHUL_CODE, "7010959");
    assert_eq!((&params.DGHT_CRSE_SC_NM, &params.SCHUL_CRSE_SC_NM), (&None, &None));
    assert_eq!((&params.AA_YMD, &params.AA_FROM_YMD, &params.AA_TO_YMD), (&None, &None, &None));
    let params = params.to_ymd(2025, 2, 28).ymd(2024, 3, 9).from_ymd(2024, 3, 1);
    assert_eq!(params.AA_YMD, text("20240309"));
    assert_eq!(params.AA_FROM_YMD, text("20240301"));
    assert_eq!(params.AA_TO_YMD, text("20250228"));
}

fn schedule_entry(flags: [&str; 6]) -> SchoolScheduleItem {
    SchoolScheduleItem {
        ATPT_OFCDC_SC_CODE: String::from("B10"),
        ATPT_OFCDC_SC_NM: String::from("서울특별시교육청"),
        SD_SCHUL_CODE: String::from("7010959"),
        SCHUL_NM: String::from("문현고등학교"),
        AY: 2024,
        DGHT_CRSE_SC_NM: text("주간"),
        SCHUL_CRSE_SC_NM: text("고등학교"),
        SBTR_DD_SC_NM: text("휴업일"),
        AA_YMD: String::from("20240309"),
        EVENT_NM: String::from("토요휴업일"),
        EVENT_CNTNT: String::new(),
        ONE_GRADE_EVENT_YN: String::from(flags[0]),
        TW_GRADE_EVENT_YN: String::from(flags[1]),
        THREE_GRADE_EVENT_YN: String::from(flags[2]),
        FR_GRADE_EVENT_YN: String::from(flags[3]),
        FIV_GRADE_EVENT_YN: String::from(flags[4]),
        SIX_GRADE_EVENT_YN: String::from(flags[5]),
        LOAD_DTM: String::from("20250930"),
    }
}

#[test]
fn schedule_entry_concerns_the_grades_flagged_with_y() {
    let entry = schedule_entry(["Y", "N", "Y", "*", "*", "*"]);
    assert!(entry.is_event_for_grade(1));
    assert!(!entry.is_event_for_grade(2));
    assert!(entry.is_event_for_grade(3));
    assert!(!entry.is_event_for_grade(4));
    assert!(!entry.is_event_for_grade(5));
    assert!(!entry.is_event_for_grade(6));
    let entry = schedule_entry(["N", "Y", "N", "Y", "Y", "Y"]);
    assert!(!entry.is_event_for_grade(1));
    assert!(entry.is_event_for_grade(2));
    assert!(!entry.is_event_for_grade(3));
    assert!(entry.is_event_for_grade(4));
    assert!(entry.is_event_for_grade(5));
    assert!(entry.is_event_for_grade(6));
}

#[test]
fn schedule_entry_concerns_no_grade_outside_one_to_six() {
    let entry = schedule_entry(["Y", "Y", "Y", "Y", "Y", "Y"]);
    assert!(!entry.is_event_for_grade(0));
    assert!(!entry.is_event_for_grade(7));
    assert!(!entry.is_event_for_grade(u8::MAX));
}

#[test]
fn schedule_entry_takes_only_an_exact_y_as_yes() {
    let entry = schedule_entry(["y", "", "YY", " Y", "Y ", "예"]);
    for grade in 1..=6 {
        assert!(!entry.is_event_for_grade(grade));
    }
}

#[test]
fn yes_and_no_differ() {
    assert_eq!(YesOrNo::Y, YesOrNo::Y);
    assert_ne!(YesOrNo::Y, YesOrNo::N);
}
