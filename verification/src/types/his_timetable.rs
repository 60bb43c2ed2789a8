#![allow(non_snake_case)]

use vstd::prelude::*;

use super::ToQueryString;
use crate::query::{optional_pair, QueryWriter};
use crate::text::{
    date_string, date_text, decimal, decimal_string, signed_decimal, signed_decimal_string,
};

verus! {

/// Parameters of a request for the timetable of a high school (고등학교시간표).
#[derive(Debug, Clone)]
pub struct HisTimetableParams {
    /// 시도교육청코드
    pub ATPT_OFCDC_SC_CODE: String,
    /// 행정표준코드
    pub SD_SCHUL_CODE: String,
    /// 학년도
    pub AY: Option<String>,
    /// 학기
    pub SEM: Option<String>,
    /// 시간표일자
    pub ALL_TI_YMD: Option<String>,
    /// 주야과정명
    pub DGHT_CRSE_SC_NM: Option<String>,
    /// 계열명
    pub ORD_SC_NM: Option<String>,
    /// 학과명
    pub DDDEP_NM: Option<String>,
    /// 학년
    pub GRADE: Option<String>,
    /// 강의실명
    pub CLRM_NM: Option<String>,
    /// 학급명
    pub CLASS_NM: Option<String>,
    /// 시간표시작일자
    pub TI_FROM_YMD: Option<String>,
    /// 시간표종료일자
    pub TI_TO_YMD: Option<String>,
}

impl HisTimetableParams {
    /// Parameters that name the office of education and the school, and nothing
    /// else.
    pub fn new(atpt_ofcdc_sc_code: &str, sd_schul_code: &str) -> (params: Self)
        ensures
            params.ATPT_OFCDC_SC_CODE@ == atpt_ofcdc_sc_code@,
            params.SD_SCHUL_CODE@ == sd_schul_code@,
            params.AY is None,
            params.SEM is None,
            params.ALL_TI_YMD is None,
            params.DGHT_CRSE_SC_NM is None,
            params.ORD_SC_NM is None,
            params.DDDEP_NM is None,
            params.GRADE is None,
            params.CLRM_NM is None,
            params.CLASS_NM is None,
            params.TI_FROM_YMD is None,
            params.TI_TO_YMD is None,
    {
        Self {
            ATPT_OFCDC_SC_CODE: atpt_ofcdc_sc_code.to_owned(),
            SD_SCHUL_CODE: sd_schul_code.to_owned(),
            AY: None,
            SEM: None,
            ALL_TI_YMD: None,
            DGHT_CRSE_SC_NM: None,
            ORD_SC_NM: None,
            DDDEP_NM: None,
            GRADE: None,
            CLRM_NM: None,
            CLASS_NM: None,
            TI_FROM_YMD: None,
            TI_TO_YMD: None,
        }
    }

    /// The same parameters, with `AY` set to `year` in decimal.
    pub fn ay(self, year: i32) -> (params: Self)
        ensures
            params.AY matches Some(text) && text@ == signed_decimal(year as int),
            params == (Self { AY: params.AY, ..self }),
    {
        let mut params = self;
        params.AY = Some(signed_decimal_string(year as i64));
        params
    }

    /// The same parameters, with `SEM` set to `sem` in decimal.
    pub fn sem(self, sem: u8) -> (params: Self)
        ensures
            params.SEM matches Some(text) && text@ == decimal(sem as nat),
            params == (Self { SEM: params.SEM, ..self }),
    {
        let mut params = self;
        params.SEM = Some(decimal_string(sem as u64));
        params
    }

    /// The same parameters, with `ALL_TI_YMD` set to the date as `YYYYMMDD`.
    pub fn ymd(self, year: i32, month: u8, day: u8) -> (params: Self)
        ensures
            params.ALL_TI_YMD matches Some(text)
                && text@ == date_text(year as int, month as nat, day as nat),
            params == (Self { ALL_TI_YMD: params.ALL_TI_YMD, ..self }),
    {
        let mut params = self;
        params.ALL_TI_YMD = Some(date_string(year, month as u32, day as u32));
        params
    }

    /// The same parameters, with `GRADE` set to `grade` in decimal.
    pub fn grade(self, grade: u8) -> (params: Self)
        ensures
            params.GRADE matches Some(text) && text@ == decimal(grade as nat),
            params == (Self { GRADE: params.GRADE, ..self }),
    {
        let mut params = self;
        params.GRADE = Some(decimal_string(grade as u64));
        params
    }

    /// The same parameters, with `TI_FROM_YMD` set to the date as `YYYYMMDD`.
    pub fn from_ymd(self, year: i32, month: u8, day: u8) -> (params: Self)
        ensures
            params.TI_FROM_YMD matches Some(text)
                && text@ == date_text(year as int, month as nat, day as nat),
            params == (Self { TI_FROM_YMD: params.TI_FROM_YMD, ..self }),
    {
        let mut params = self;
        params.TI_FROM_YMD = Some(date_string(year, month as u32, day as u32));
        params
    }

    /// The same parameters, with `TI_TO_YMD` set to the date as `YYYYMMDD`.
    pub fn to_ymd(self, year: i32, month: u8, day: u8) -> (params: Self)
        ensures
            params.TI_TO_YMD matches Some(text)
                && text@ == date_text(year as int, month as nat, day as nat),
            params == (Self { TI_TO_YMD: params.TI_TO_YMD, ..self }),
    {
        let mut params = self;
        params.TI_TO_YMD = Some(date_string(year, month as u32, day as u32));
        params
    }
}

impl ToQueryString for HisTimetableParams {
    open spec fn pairs(&self) -> Seq<(Seq<char>, Seq<char>)> {
        seq![
            ("ATPT_OFCDC_SC_CODE"@, self.ATPT_OFCDC_SC_CODE@),
            ("SD_SCHUL_CODE"@, self.SD_SCHUL_CODE@),
        ]
            + optional_pair("AY"@, self.AY)
            + optional_pair("SEM"@, self.SEM)
            + optional_pair("ALL_TI_YMD"@, self.ALL_TI_YMD)
            + optional_pair("DGHT_CRSE_SC_NM"@, self.DGHT_CRSE_SC_NM)
            + optional_pair("ORD_SC_NM"@, self.ORD_SC_NM)
            + optional_pair("DDDEP_NM"@, self.DDDEP_NM)
            + optional_pair("GRADE"@, self.GRADE)
            + optional_pair("CLRM_NM"@, self.CLRM_NM)
            + optional_pair("CLASS_NM"@, self.CLASS_NM)
            + optional_pair("TI_FROM_YMD"@, self.TI_FROM_YMD)
            + optional_pair("TI_TO_YMD"@, self.TI_TO_YMD)
    }

    fn to_query_string(&self) -> (query: String) {
        let mut writer = QueryWriter::new();
        writer.pair("ATPT_OFCDC_SC_CODE", self.ATPT_OFCDC_SC_CODE.as_str());
        writer.pair("SD_SCHUL_CODE", self.SD_SCHUL_CODE.as_str());
        assert(writer.pairs() =~= seq![
            ("ATPT_OFCDC_SC_CODE"@, self.ATPT_OFCDC_SC_CODE@),
            ("SD_SCHUL_CODE"@, self.SD_SCHUL_CODE@),
        ]);
        writer.optional("AY", &self.AY);
        writer.optional("SEM", &self.SEM);
        writer.optional("ALL_TI_YMD", &self.ALL_TI_YMD);
        writer.optional("DGHT_CRSE_SC_NM", &self.DGHT_CRSE_SC_NM);
        writer.optional("ORD_SC_NM", &self.ORD_SC_NM);
        writer.optional("DDDEP_NM", &self.DDDEP_NM);
        writer.optional("GRADE", &self.GRADE);
        writer.optional("CLRM_NM", &self.CLRM_NM);
        writer.optional("CLASS_NM", &self.CLASS_NM);
        writer.optional("TI_FROM_YMD", &self.TI_FROM_YMD);
        writer.optional("TI_TO_YMD", &self.TI_TO_YMD);
        writer.finish()
    }
}

/// One period in the timetable of a high school.
#[derive(Debug, Clone, PartialEq, Eq, Hash)]
pub struct HisTimetableItem {
    /// 시도교육청코드
    /// B10 | C10 | D10 | E10 | F10 | G10 | H10 | I10 | J10 | K10 | M10 | N10 | P10 | Q10 | R10 | S10 | T10 | V10
    pub ATPT_OFCDC_SC_CODE: String,

    /// 시도교육청명
    /// Example: 서울특별시교육청
    pub ATPT_OFCDC_SC_NM: String,

    /// 행정표준코드
    /// Example: 7010959
    pub SD_SCHUL_CODE: String,

    /// 학교명
    /// Example: 문현고등학교
    pub SCHUL_NM: String,

    /// 학년도
    /// Example: 2023
    pub AY: i32,

    /// 학기
    /// Example: 2
    pub SEM: u8,

    /// 시간표일자
    /// Example: 20230821
    pub ALL_TI_YMD: String,

    /// 주야과정명
    /// Example: 주간
    pub DGHT_CRSE_SC_NM: Option<String>,

    /// 계열명
    /// Example: 일반계
    pub ORD_SC_NM: Option<String>,

    /// 학과명
    /// Example: 일반학과
    pub DDDEP_NM: Option<String>,

    /// 학년
    /// Example: 3
    pub GRADE: u8,

    /// 강의실명
    /// Example: 301
    pub CLRM_NM: Option<String>,

    /// 학급명
    /// Example: 1
    pub CLASS_NM: Option<String>,

    /// 교시
    /// Example: 5
    pub PERIO: u8,

    /// 수업내용
    /// Example: [보강]음악 감상과 비평
    pub ITRT_CNTNT: Option<String>,

    /// 수정일자
    /// Example: 20230827
    pub LOAD_DTM: String,
}

} // verus!
