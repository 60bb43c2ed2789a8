#![allow(non_snake_case)]

use vstd::prelude::*;

use super::ToQueryString;
use crate::query::{optional_pair, QueryWriter};
use crate::text::{decimal, decimal_string, signed_decimal, signed_decimal_string};

verus! {

/// Parameters of a request for the classes of a school (학급정보).
#[derive(Debug)]
pub struct ClassInfoParams {
    /// 시도교육청코드
    pub ATPT_OFCDC_SC_CODE: String,
    /// 행정표준코드
    pub SD_SCHUL_CODE: String,
    /// 학년도
    pub AY: Option<String>,
    /// 학년
    pub GRADE: Option<String>,
    /// 주야과정명
    pub DGHT_CRSE_SC_NM: Option<String>,
    /// 학교과정명
    pub SCHUL_CRSE_SC_NM: Option<String>,
    /// 계열명
    pub ORD_SC_NM: Option<String>,
    /// 학과명
    pub DDDEP_NM: Option<String>,
}

impl ClassInfoParams {
    /// Parameters that name the office of education and the school, and nothing
    /// else.
    pub fn new(atpt_ofcdc_sc_code: &str, sd_schul_code: &str) -> (params: Self)
        ensures
            params.ATPT_OFCDC_SC_CODE@ == atpt_ofcdc_sc_code@,
            params.SD_SCHUL_CODE@ == sd_schul_code@,
            params.AY is None,
            params.GRADE is None,
            params.DGHT_CRSE_SC_NM is None,
            params.SCHUL_CRSE_SC_NM is None,
            params.ORD_SC_NM is None,
            params.DDDEP_NM is None,
    {
        Self {
            ATPT_OFCDC_SC_CODE: atpt_ofcdc_sc_code.to_owned(),
            SD_SCHUL_CODE: sd_schul_code.to_owned(),
            AY: None,
            GRADE: None,
            DGHT_CRSE_SC_NM: None,
            SCHUL_CRSE_SC_NM: None,
            ORD_SC_NM: None,
            DDDEP_NM: None,
        }
    }

    /// The same parameters, with `AY` set to `year` in decimal.
    pub fn ay(self, year: i32) -> (params: Self)
        ensures
            params.AY matches Some(text) && text@ == signed_decimal(year as int),
            params == (Self { AY: params.AY, ..self }),
    {
        let mut params = self;
        params.AY = Some(signed_decimal_string(year as i64));
        params
    }

    /// The same parameters, with `GRADE` set to `grade` in decimal.
    pub fn grade(self, grade: u8) -> (params: Self)
        ensures
            params.GRADE matches Some(text) && text@ == decimal(grade as nat),
            params == (Self { GRADE: params.GRADE, ..self }),
    {
        let mut params = self;
        params.GRADE = Some(decimal_string(grade as u64));
        params
    }

    /// A writer that has written the parameters, and to which more pairs can
    /// be added.
    pub fn to_serializer(&self) -> (writer: QueryWriter)
        ensures
            writer.wf(),
            writer.pairs() == self.pairs(),
    {
        let mut writer = QueryWriter::new();
        writer.pair("ATPT_OFCDC_SC_CODE", self.ATPT_OFCDC_SC_CODE.as_str());
        writer.pair("SD_SCHUL_CODE", self.SD_SCHUL_CODE.as_str());
        assert(writer.pairs() =~= seq![
            ("ATPT_OFCDC_SC_CODE"@, self.ATPT_OFCDC_SC_CODE@),
            ("SD_SCHUL_CODE"@, self.SD_SCHUL_CODE@),
        ]);
        writer.optional("AY", &self.AY);
        writer.optional("GRADE", &self.GRADE);
        writer.optional("DGHT_CRSE_SC_NM", &self.DGHT_CRSE_SC_NM);
        writer.optional("SCHUL_CRSE_SC_NM", &self.SCHUL_CRSE_SC_NM);
        writer.optional("ORD_SC_NM", &self.ORD_SC_NM);
        writer.optional("DDDEP_NM", &self.DDDEP_NM);
        writer
    }
}

impl ToQueryString for ClassInfoParams {
    open spec fn pairs(&self) -> Seq<(Seq<char>, Seq<char>)> {
        seq![
            ("ATPT_OFCDC_SC_CODE"@, self.ATPT_OFCDC_SC_CODE@),
            ("SD_SCHUL_CODE"@, self.SD_SCHUL_CODE@),
        ]
            + optional_pair("AY"@, self.AY)
            + optional_pair("GRADE"@, self.GRADE)
            + optional_pair("DGHT_CRSE_SC_NM"@, self.DGHT_CRSE_SC_NM)
            + optional_pair("SCHUL_CRSE_SC_NM"@, self.SCHUL_CRSE_SC_NM)
            + optional_pair("ORD_SC_NM"@, self.ORD_SC_NM)
            + optional_pair("DDDEP_NM"@, self.DDDEP_NM)
    }

    fn to_query_string(&self) -> (query: String) {
        self.to_serializer().finish()
    }
}

/// One class of a school.
#[derive(Debug, Clone, PartialEq, Eq, Hash)]
pub struct ClassInfoItem {
    /// 시도교육청코드
    pub ATPT_OFCDC_SC_CODE: String,

    /// 시도교육청명
    pub ATPT_OFCDC_SC_NM: String,

    /// 행정표준코드
    pub SD_SCHUL_CODE: String,

    /// 학교명
    pub SCHUL_NM: String,

    /// 학년도
    pub AY: i32,

    /// 학년
    pub GRADE: u8,

    /// 주야과정명
    pub DGHT_CRSE_SC_NM: Option<String>,

    /// 학교과정명
    pub SCHUL_CRSE_SC_NM: Option<String>,

    /// 계열명
    pub ORD_SC_NM: Option<String>,

    /// 학과명
    pub DDDEP_NM: Option<String>,

    /// 학급명
    pub CLASS_NM: Option<String>,

    /// 수정일자
    pub LOAD_DTM: String,
}

} // verus!
