#![allow(non_snake_case)]

use vstd::prelude::*;

use super::ToQueryString;
use crate::query::{optional_pair, QueryWriter};
use crate::text::{decimal, decimal_string, signed_decimal, signed_decimal_string};

verus! {

/// Parameters of a request for the rooms in which a school teaches (시간표강의실정보).
#[derive(Debug, Clone)]
pub struct ClassRoomInfoParams {
    /// 시도교육청코드
    pub ATPT_OFCDC_SC_CODE: String,
    /// 행정표준코드
    pub SD_SCHUL_CODE: String,
    /// 학년도
    pub AY: Option<String>,
    /// 학년
    pub GRADE: Option<String>,
    /// 학기
    pub SEM: Option<String>,
    /// 학교과정명
    pub SCHUL_CRSE_SC_NM: Option<String>,
    /// 주야과정명
    pub DGHT_CRSE_SC_NM: Option<String>,
    /// 계열명
    pub ORD_SC_NM: Option<String>,
    /// 학과명
    pub DDDEP_NM: Option<String>,
}

impl ClassRoomInfoParams {
    /// Parameters that name the office of education and the school, and nothing
    /// else.
    pub fn new(atpt_ofcdc_sc_code: &str, sd_schul_code: &str) -> (params: Self)
        ensures
            params.ATPT_OFCDC_SC_CODE@ == atpt_ofcdc_sc_code@,
            params.SD_SCHUL_CODE@ == sd_schul_code@,
            params.AY is None,
            params.GRADE is None,
            params.SEM is None,
            params.SCHUL_CRSE_SC_NM is None,
            params.DGHT_CRSE_SC_NM is None,
            params.ORD_SC_NM is None,
            params.DDDEP_NM is None,
    {
        Self {
            ATPT_OFCDC_SC_CODE: atpt_ofcdc_sc_code.to_owned(),
            SD_SCHUL_CODE: sd_schul_code.to_owned(),
            AY: None,
            GRADE: None,
            SEM: None,
            SCHUL_CRSE_SC_NM: None,
            DGHT_CRSE_SC_NM: None,
            ORD_SC_NM: None,
            DDDEP_NM: None,
        }
    }

    /// The same parameters, with `AY` set to `year` in decimal.
    pub fn ay(self, year: i32) -> (params: Self)
        ensures
            params.AY matches Some(text) && text@ == signed_decimal(year as int),
            params == (Self { AY: params.AY, ..self }),
    {
        let mut params = self;
        params.AY = Some(signed_decimal_string(year as i64));
        params
    }

    /// The same parameters, with `GRADE` set to `grade` in decimal.
    pub fn grade(self, grade: u8) -> (params: Self)
        ensures
            params.GRADE matches Some(text) && text@ == decimal(grade as nat),
            params == (Self { GRADE: params.GRADE, ..self }),
    {
        let mut params = self;
        params.GRADE = Some(decimal_string(grade as u64));
        params
    }

    /// The same parameters, with `SEM` set to `sem` in decimal.
    pub fn sem(self, sem: u8) -> (params: Self)
        ensures
            params.SEM matches Some(text) && text@ == decimal(sem as nat),
            params == (Self { SEM: params.SEM, ..self }),
    {
        let mut params = self;
        params.SEM = Some(decimal_string(sem as u64));
        params
    }
}

impl ToQueryString for ClassRoomInfoParams {
    open spec fn pairs(&self) -> Seq<(Seq<char>, Seq<char>)> {
        seq![
            ("ATPT_OFCDC_SC_CODE"@, self.ATPT_OFCDC_SC_CODE@),
            ("SD_SCHUL_CODE"@, self.SD_SCHUL_CODE@),
        ]
            + optional_pair("AY"@, self.AY)
            + optional_pair("GRADE"@, self.GRADE)
            + optional_pair("SEM"@, self.SEM)
            + optional_pair("SCHUL_CRSE_SC_NM"@, self.SCHUL_CRSE_SC_NM)
            + optional_pair("DGHT_CRSE_SC_NM"@, self.DGHT_CRSE_SC_NM)
            + optional_pair("ORD_SC_NM"@, self.ORD_SC_NM)
            + optional_pair("DDDEP_NM"@, self.DDDEP_NM)
    }

    fn to_query_string(&self) -> (query: String) {
        let mut writer = QueryWriter::new();
        writer.pair("ATPT_OFCDC_SC_CODE", self.ATPT_OFCDC_SC_CODE.as_str());
        writer.pair("SD_SCHUL_CODE", self.SD_SCHUL_CODE.as_str());
        assert(writer.pairs() =~= seq![
            ("ATPT_OFCDC_SC_CODE"@, self.ATPT_OFCDC_SC_CODE@),
            ("SD_SCHUL_CODE"@, self.SD_SCHUL_CODE@),
        ]);
        writer.optional("AY", &self.AY);
        writer.optional("GRADE", &self.GRADE);
        writer.optional("SEM", &self.SEM);
        writer.optional("SCHUL_CRSE_SC_NM", &self.SCHUL_CRSE_SC_NM);
        writer.optional("DGHT_CRSE_SC_NM", &self.DGHT_CRSE_SC_NM);
        writer.optional("ORD_SC_NM", &self.ORD_SC_NM);
        writer.optional("DDDEP_NM", &self.DDDEP_NM);
        writer.finish()
    }
}

/// One room of a school.
#[derive(Debug, Clone, PartialEq, Eq, Hash)]
pub struct ClassRoomInfoItem {
    /// 시도교육청코드
    /// B10 | C10 | D10 | E10 | F10 | G10 | H10 | I10 | J10 | K10 | M10 | N10 | P10 | Q10 | R10 | S10 | T10 | V10
    pub ATPT_OFCDC_SC_CODE: String,

    /// 시도교육청명
    /// Example: 서울특별시교육청
    pub ATPT_OFCDC_SC_NM: String,

    /// 행정표준코드
    /// Example: 7010959
    pub SD_SCHUL_CODE: String,

    /// 학교명
    /// Example: 문현고등학교
    pub SCHUL_NM: String,

    /// 학년도
    /// Example: 2024
    pub AY: i32,

    /// 학년
    /// Example: 1
    pub GRADE: u8,

    /// 학기
    /// Example: 1
    pub SEM: u8,

    /// 학교과정명
    /// Example: 고등학교
    pub SCHUL_CRSE_SC_NM: Option<String>,

    /// 주야과정명
    /// Example: 주간
    pub DGHT_CRSE_SC_NM: Option<String>,

    /// 계열명
    /// Example: 일반계
    pub ORD_SC_NM: Option<String>,

    /// 학과명
    /// Example: 일반학과
    pub DDDEP_NM: Option<String>,

    /// 강의실명
    /// Example: 5
    pub CLRM_NM: Option<String>,

    /// 수정일자
    /// Example: 20250930
    pub LOAD_DTM: String,
}

} // verus!
