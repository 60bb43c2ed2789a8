#![allow(non_snake_case)]

use vstd::prelude::*;

use super::ToQueryString;
use crate::query::{optional_pair, QueryWriter};
use crate::text::{
    date_string, date_text, decimal, decimal_string, signed_decimal, signed_decimal_string,
};

verus! {

/// Parameters of a request for the timetable of an elementary school (초등학교시간표).
#[derive(Debug)]
pub struct ElsTimetableParams {
    /// 시도교육청코드
    pub ATPT_OFCDC_SC_CODE: String,
    /// 행정표준코드
    pub SD_SCHUL_CODE: String,
    /// 학년도
    pub AY: Option<String>,
    /// 학기
    pub SEM: Option<String>,
    /// 시간표일자
    pub ALL_TI_YMD: Option<String>,
    /// 학년
    pub GRADE: Option<String>,
    /// 학급명
    pub CLASS_NM: Option<String>,
    /// 교시
    pub PERIO: Option<String>,
    /// 시간표시작일자
    pub TI_FROM_YMD: Option<String>,
    /// 시간표종료일자
    pub TI_TO_YMD: Option<String>,
}

impl ElsTimetableParams {
    /// Parameters that name the office of education and the school, and nothing
    /// else.
    pub fn new(atpt_ofcdc_sc_code: &str, sd_schul_code: &str) -> (params: Self)
        ensures
            params.ATPT_OFCDC_SC_CODE@ == atpt_ofcdc_sc_code@,
            params.SD_SCHUL_CODE@ == sd_schul_code@,
            params.AY is None,
            params.SEM is None,
            params.ALL_TI_YMD is None,
            params.GRADE is None,
            params.CLASS_NM is None,
            params.PERIO is None,
            params.TI_FROM_YMD is None,
            params.TI_TO_YMD is None,
    {
        Self {
            ATPT_OFCDC_SC_CODE: atpt_ofcdc_sc_code.to_owned(),
            SD_SCHUL_CODE: sd_schul_code.to_owned(),
            AY: None,
            SEM: None,
            ALL_TI_YMD: None,
            GRADE: None,
            CLASS_NM: None,
            PERIO: None,
            TI_FROM_YMD: None,
            TI_TO_YMD: None,
        }
    }

    /// The same parameters, with `AY` set to `year` in decimal.
    pub fn ay(self, year: i32) -> (params: Self)
        ensures
            params.AY matches Some(text) && text@ == signed_decimal(year as int),
            params == (Self { AY: params.AY, ..self }),
    {
        let mut params = self;
        params.AY = Some(signed_decimal_string(year as i64));
        params
    }

    /// The same parameters, with `SEM` set to `sem` in decimal.
    pub fn sem(self, sem: u8) -> (params: Self)
        ensures
            params.SEM matches Some(text) && text@ == decimal(sem as nat),
            params == (Self { SEM: params.SEM, ..self }),
    {
        let mut params = self;
        params.SEM = Some(decimal_string(sem as u64));
        params
    }

    /// The same parameters, with `ALL_TI_YMD` set to the date as `YYYYMMDD`.
    pub fn ymd(self, year: i32, month: u32, day: u32) -> (params: Self)
        ensures
            params.ALL_TI_YMD matches Some(text)
                && text@ == date_text(year as int, month as nat, day as nat),
            params == (Self { ALL_TI_YMD: params.ALL_TI_YMD, ..self }),
    {
        let mut params = self;
        params.ALL_TI_YMD = Some(date_string(year, month, day));
        params
    }

    /// The same parameters, with `GRADE` set to `grade` in decimal.
    pub fn grade(self, grade: u8) -> (params: Self)
        ensures
            params.GRADE matches Some(text) && text@ == decimal(grade as nat),
            params == (Self { GRADE: params.GRADE, ..self }),
    {
        let mut params = self;
        params.GRADE = Some(decimal_string(grade as u64));
        params
    }

    /// The same parameters, with `PERIO` set to `perio` in decimal.
    pub fn perio(self, perio: u8) -> (params: Self)
        ensures
            params.PERIO matches Some(text) && text@ == decimal(perio as nat),
            params == (Self { PERIO: params.PERIO, ..self }),
    {
        let mut params = self;
        params.PERIO = Some(decimal_string(perio as u64));
        params
    }

    /// The same parameters, with `TI_FROM_YMD` set to the date as `YYYYMMDD`.
    pub fn from_ymd(self, year: i32, month: u32, day: u32) -> (params: Self)
        ensures
            params.TI_FROM_YMD matches Some(text)
                && text@ == date_text(year as int, month as nat, day as nat),
            params == (Self { TI_FROM_YMD: params.TI_FROM_YMD, ..self }),
    {
        let mut params = self;
        params.TI_FROM_YMD = Some(date_string(year, month, day));
        params
    }

    /// The same parameters, with `TI_TO_YMD` set to the date as `YYYYMMDD`.
    pub fn to_ymd(self, year: i32, month: u32, day: u32) -> (params: Self)
        ensures
            params.TI_TO_YMD matches Some(text)
                && text@ == date_text(year as int, month as nat, day as nat),
            params == (Self { TI_TO_YMD: params.TI_TO_YMD, ..self }),
    {
        let mut params = self;
        params.TI_TO_YMD = Some(date_string(year, month, day));
        params
    }
}

impl ToQueryString for ElsTimetableParams {
    open spec fn pairs(&self) -> Seq<(Seq<char>, Seq<char>)> {
        seq![
            ("ATPT_OFCDC_SC_CODE"@, self.ATPT_OFCDC_SC_CODE@),
            ("SD_SCHUL_CODE"@, self.SD_SCHUL_CODE@),
        ]
            + optional_pair("AY"@, self.AY)
            + optional_pair("SEM"@, self.SEM)
            + optional_pair("ALL_TI_YMD"@, self.ALL_TI_YMD)
            + optional_pair("GRADE"@, self.GRADE)
            + optional_pair("CLASS_NM"@, self.CLASS_NM)
            + optional_pair("PERIO"@, self.PERIO)
            + optional_pair("TI_FROM_YMD"@, self.TI_FROM_YMD)
            + optional_pair("TI_TO_YMD"@, self.TI_TO_YMD)
    }

    fn to_query_string(&self) -> (query: String) {
        let mut writer = QueryWriter::new();
        writer.pair("ATPT_OFCDC_SC_CODE", self.ATPT_OFCDC_SC_CODE.as_str());
        writer.pair("SD_SCHUL_CODE", self.SD_SCHUL_CODE.as_str());
        assert(writer.pairs() =~= seq![
            ("ATPT_OFCDC_SC_CODE"@, self.ATPT_OFCDC_SC_CODE@),
            ("SD_SCHUL_CODE"@, self.SD_SCHUL_CODE@),
        ]);
        writer.optional("AY", &self.AY);
        writer.optional("SEM", &self.SEM);
        writer.optional("ALL_TI_YMD", &self.ALL_TI_YMD);
        writer.optional("GRADE", &self.GRADE);
        writer.optional("CLASS_NM", &self.CLASS_NM);
        writer.optional("PERIO", &self.PERIO);
        writer.optional("TI_FROM_YMD", &self.TI_FROM_YMD);
        writer.optional("TI_TO_YMD", &self.TI_TO_YMD);
        writer.finish()
    }
}

/// One period in the timetable of an elementary school.
#[derive(Debug, Clone, PartialEq, Eq, Hash)]
pub struct ElsTimetableItem {
    /// 시도교육청코드
    pub ATPT_OFCDC_SC_CODE: String,

    /// 시도교육청명
    pub ATPT_OFCDC_SC_NM: String,

    /// 행정표준코드
    pub SD_SCHUL_CODE: String,

    /// 학교명
    pub SCHUL_NM: String,

    /// 학년도
    pub AY: i32,

    /// 학기
    pub SEM: u8,

    /// 시간표일자
    pub ALL_TI_YMD: String,

    /// 학년
    pub GRADE: u8,

    /// 학급명
    pub CLASS_NM: Option<String>,

    /// 교시
    pub PERIO: u8,

    /// 수업내용
    pub ITRT_CNTNT: Option<String>,

    /// 수정일자
    pub LOAD_DTM: String,
}

} // verus!
