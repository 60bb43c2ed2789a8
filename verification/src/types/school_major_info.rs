#![allow(non_snake_case)]

use vstd::prelude::*;

use super::ToQueryString;
use crate::query::{optional_pair, QueryWriter};

verus! {

/// Parameters of a request for the departments of schools (학교학과정보).
#[derive(Debug)]
pub struct SchoolMajorInfoParams {
    /// 시도교육청코드
    pub ATPT_OFCDC_SC_CODE: String,
    /// 행정표준코드
    pub SD_SCHUL_CODE: Option<String>,
    /// 주야과정명
    pub DGHT_CRSE_SC_NM: Option<String>,
    /// 계열명
    pub ORD_SC_NM: Option<String>,
}

impl SchoolMajorInfoParams {
    /// Parameters that name the office of education, and nothing
    /// else.
    pub fn new(atpt_ofcdc_sc_code: &str) -> (params: Self)
        ensures
            params.ATPT_OFCDC_SC_CODE@ == atpt_ofcdc_sc_code@,
            params.SD_SCHUL_CODE is None,
            params.DGHT_CRSE_SC_NM is None,
            params.ORD_SC_NM is None,
    {
        Self {
            ATPT_OFCDC_SC_CODE: atpt_ofcdc_sc_code.to_owned(),
            SD_SCHUL_CODE: None,
            DGHT_CRSE_SC_NM: None,
            ORD_SC_NM: None,
        }
    }

    /// The same parameters, with `SD_SCHUL_CODE` set to `s`.
    pub fn school_code(self, s: &str) -> (params: Self)
        ensures
            params.SD_SCHUL_CODE matches Some(text) && text@ == s@,
            params == (Self { SD_SCHUL_CODE: params.SD_SCHUL_CODE, ..self }),
    {
        let mut params = self;
        params.SD_SCHUL_CODE = Some(s.to_owned());
        params
    }
}

impl ToQueryString for SchoolMajorInfoParams {
    open spec fn pairs(&self) -> Seq<(Seq<char>, Seq<char>)> {
        seq![("ATPT_OFCDC_SC_CODE"@, self.ATPT_OFCDC_SC_CODE@)]
            + optional_pair("SD_SCHUL_CODE"@, self.SD_SCHUL_CODE)
            + optional_pair("DGHT_CRSE_SC_NM"@, self.DGHT_CRSE_SC_NM)
            + optional_pair("ORD_SC_NM"@, self.ORD_SC_NM)
    }

    fn to_query_string(&self) -> (query: String) {
        let mut writer = QueryWriter::new();
        writer.pair("ATPT_OFCDC_SC_CODE", self.ATPT_OFCDC_SC_CODE.as_str());
        assert(writer.pairs() =~= seq![("ATPT_OFCDC_SC_CODE"@, self.ATPT_OFCDC_SC_CODE@)]);
        writer.optional("SD_SCHUL_CODE", &self.SD_SCHUL_CODE);
        writer.optional("DGHT_CRSE_SC_NM", &self.DGHT_CRSE_SC_NM);
        writer.optional("ORD_SC_NM", &self.ORD_SC_NM);
        writer.finish()
    }
}

/// One department of a school.
#[derive(Debug, Clone, PartialEq, Eq, Hash)]
pub struct SchoolMajorInfoItem {
    /// 시도교육청코드
    pub ATPT_OFCDC_SC_CODE: String,

    /// 시도교육청명
    pub ATPT_OFCDC_SC_NM: String,

    /// 행정표준코드
    pub SD_SCHUL_CODE: String,

    /// 학교명
    pub SCHUL_NM: String,

    /// 주야과정명
    pub DGHT_CRSE_SC_NM: Option<String>,

    /// 계열명
    pub ORD_SC_NM: Option<String>,

    /// 학과명
    pub DDDEP_NM: Option<String>,

    /// 수정일자
    pub LOAD_DTM: String,
}

} // verus!
