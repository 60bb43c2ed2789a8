#![allow(non_snake_case)]

use vstd::prelude::*;

use super::ToQueryString;
use crate::query::{optional_pair, QueryWriter};

verus! {

/// Parameters of a request for the lines of study of schools (학교계열정보).
#[derive(Debug, Clone)]
pub struct SchoolAflcoInfoParams {
    /// 시도교육청코드
    pub ATPT_OFCDC_SC_CODE: String,
    /// 행정표준코드
    pub SD_SCHUL_CODE: Option<String>,
    /// 주야과정명
    pub DGHT_CRSE_SC_NM: Option<String>,
}

impl SchoolAflcoInfoParams {
    /// Parameters that name the office of education, and nothing
    /// else.
    pub fn new(atpt_ofcdc_sc_code: &str) -> (params: Self)
        ensures
            params.ATPT_OFCDC_SC_CODE@ == atpt_ofcdc_sc_code@,
            params.SD_SCHUL_CODE is None,
            params.DGHT_CRSE_SC_NM is None,
    {
        Self {
            ATPT_OFCDC_SC_CODE: atpt_ofcdc_sc_code.to_owned(),
            SD_SCHUL_CODE: None,
            DGHT_CRSE_SC_NM: None,
        }
    }

    /// The same parameters, with `SD_SCHUL_CODE` set to `s`.
    pub fn school_code(self, s: &str) -> (params: Self)
        ensures
            params.SD_SCHUL_CODE matches Some(text) && text@ == s@,
            params == (Self { SD_SCHUL_CODE: params.SD_SCHUL_CODE, ..self }),
    {
        let mut params = self;
        params.SD_SCHUL_CODE = Some(s.to_owned());
        params
    }
}

impl ToQueryString for SchoolAflcoInfoParams {
    open spec fn pairs(&self) -> Seq<(Seq<char>, Seq<char>)> {
        seq![("ATPT_OFCDC_SC_CODE"@, self.ATPT_OFCDC_SC_CODE@)]
            + optional_pair("SD_SCHUL_CODE"@, self.SD_SCHUL_CODE)
            + optional_pair("DGHT_CRSE_SC_NM"@, self.DGHT_CRSE_SC_NM)
    }

    fn to_query_string(&self) -> (query: String) {
        let mut writer = QueryWriter::new();
        writer.pair("ATPT_OFCDC_SC_CODE", self.ATPT_OFCDC_SC_CODE.as_str());
        assert(writer.pairs() =~= seq![("ATPT_OFCDC_SC_CODE"@, self.ATPT_OFCDC_SC_CODE@)]);
        writer.optional("SD_SCHUL_CODE", &self.SD_SCHUL_CODE);
        writer.optional("DGHT_CRSE_SC_NM", &self.DGHT_CRSE_SC_NM);
        writer.finish()
    }
}

/// One line of study of a school.
#[derive(Debug, Clone, PartialEq, Eq, Hash)]
pub struct SchoolAflcoInfoItem {
    /// 시도교육청코드
    /// B10 | C10 | D10 | E10 | F10 | G10 | H10 | I10 | J10 | K10 | M10 | N10 | P10 | Q10 | R10 | S10 | T10 | V10
    pub ATPT_OFCDC_SC_CODE: String,

    /// 시도교육청명
    /// Example: 서울특별시교육청
    pub ATPT_OFCDC_SC_NM: String,

    /// 행정표준코드
    /// Example: 7010959
    pub SD_SCHUL_CODE: String,

    /// 학교명
    /// Example: 문현고등학교
    pub SCHUL_NM: String,

    /// 주야과정명
    /// Example: 주간
    pub DGHT_CRSE_SC_NM: Option<String>,

    /// 계열명
    /// Example: 일반계
    pub ORD_SC_NM: Option<String>,

    /// 수정일자
    /// Example: 20250901
    pub LOAD_DTM: String,
}

} // verus!
