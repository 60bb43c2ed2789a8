#![allow(non_snake_case)]

use vstd::prelude::*;

use super::ToQueryString;
use crate::query::{optional_pair, QueryWriter};
use crate::text::{date_string, date_text};

verus! {

/// Parameters of a request for the meals of a school (급식식단정보).
#[derive(Debug, Clone)]
pub struct MealServiceParams {
    /// 시도교육청코드
    pub ATPT_OFCDC_SC_CODE: String,
    /// 행정표준코드
    pub SD_SCHUL_CODE: String,
    /// 식사코드
    pub MMEAL_SC_CODE: Option<String>,
    /// 급식일자
    pub MLSV_YMD: Option<String>,
    /// 급식시작일자
    pub MLSV_FROM_YMD: Option<String>,
    /// 급식종료일자
    pub MLSV_TO_YMD: Option<String>,
}

impl MealServiceParams {
    /// Parameters that name the office of education and the school, and nothing
    /// else.
    pub fn new(atpt_ofcdc_sc_code: &str, sd_schul_code: &str) -> (params: Self)
        ensures
            params.ATPT_OFCDC_SC_CODE@ == atpt_ofcdc_sc_code@,
            params.SD_SCHUL_CODE@ == sd_schul_code@,
            params.MMEAL_SC_CODE is None,
            params.MLSV_YMD is None,
            params.MLSV_FROM_YMD is None,
            params.MLSV_TO_YMD is None,
    {
        Self {
            ATPT_OFCDC_SC_CODE: atpt_ofcdc_sc_code.to_owned(),
            SD_SCHUL_CODE: sd_schul_code.to_owned(),
            MMEAL_SC_CODE: None,
            MLSV_YMD: None,
            MLSV_FROM_YMD: None,
            MLSV_TO_YMD: None,
        }
    }

    /// The same parameters, with `MLSV_YMD` set to the date as `YYYYMMDD`.
    pub fn ymd(self, year: i32, month: u8, day: u8) -> (params: Self)
        ensures
            params.MLSV_YMD matches Some(text)
                && text@ == date_text(year as int, month as nat, day as nat),
            params == (Self { MLSV_YMD: params.MLSV_YMD, ..self }),
    {
        let mut params = self;
        params.MLSV_YMD = Some(date_string(year, month as u32, day as u32));
        params
    }

    /// The same parameters, with `MLSV_FROM_YMD` set to the date as `YYYYMMDD`.
    pub fn from_ymd(self, year: i32, month: u8, day: u8) -> (params: Self)
        ensures
            params.MLSV_FROM_YMD matches Some(text)
                && text@ == date_text(year as int, month as nat, day as nat),
            params == (Self { MLSV_FROM_YMD: params.MLSV_FROM_YMD, ..self }),
    {
        let mut params = self;
        params.MLSV_FROM_YMD = Some(date_string(year, month as u32, day as u32));
        params
    }

    /// The same parameters, with `MLSV_TO_YMD` set to the date as `YYYYMMDD`.
    pub fn to_ymd(self, year: i32, month: u8, day: u8) -> (params: Self)
        ensures
            params.MLSV_TO_YMD matches Some(text)
                && text@ == date_text(year as int, month as nat, day as nat),
            params == (Self { MLSV_TO_YMD: params.MLSV_TO_YMD, ..self }),
    {
        let mut params = self;
        params.MLSV_TO_YMD = Some(date_string(year, month as u32, day as u32));
        params
    }
}

impl ToQueryString for MealServiceParams {
    open spec fn pairs(&self) -> Seq<(Seq<char>, Seq<char>)> {
        seq![
            ("ATPT_OFCDC_SC_CODE"@, self.ATPT_OFCDC_SC_CODE@),
            ("SD_SCHUL_CODE"@, self.SD_SCHUL_CODE@),
        ]
            + optional_pair("MMEAL_SC_CODE"@, self.MMEAL_SC_CODE)
            + optional_pair("MLSV_YMD"@, self.MLSV_YMD)
            + optional_pair("MLSV_FROM_YMD"@, self.MLSV_FROM_YMD)
            + optional_pair("MLSV_TO_YMD"@, self.MLSV_TO_YMD)
    }

    fn to_query_string(&self) -> (query: String) {
        let mut writer = QueryWriter::new();
        writer.pair("ATPT_OFCDC_SC_CODE", self.ATPT_OFCDC_SC_CODE.as_str());
        writer.pair("SD_SCHUL_CODE", self.SD_SCHUL_CODE.as_str());
        assert(writer.pairs() =~= seq![
            ("ATPT_OFCDC_SC_CODE"@, self.ATPT_OFCDC_SC_CODE@),
            ("SD_SCHUL_CODE"@, self.SD_SCHUL_CODE@),
        ]);
        writer.optional("MMEAL_SC_CODE", &self.MMEAL_SC_CODE);
        writer.optional("MLSV_YMD", &self.MLSV_YMD);
        writer.optional("MLSV_FROM_YMD", &self.MLSV_FROM_YMD);
        writer.optional("MLSV_TO_YMD", &self.MLSV_TO_YMD);
        writer.finish()
    }
}

/// One meal of a school.
#[derive(Debug, Clone, PartialEq, Eq, Hash)]
pub struct MealServiceItem {
    /// 시도교육청코드
    /// B10 | C10 | D10 | E10 | F10 | G10 | H10 | I10 | J10 | K10 | M10 | N10 | P10 | Q10 | R10 | S10 | T10 | V10
    pub ATPT_OFCDC_SC_CODE: String,

    /// 시도교육청명
    /// Example: 서울특별시교육청
    pub ATPT_OFCDC_SC_NM: String,

    /// 행정표준코드
    /// Example: 7010959
    pub SD_SCHUL_CODE: String,

    /// 학교명
    /// Example: 문현고등학교
    pub SCHUL_NM: String,

    /// 식사코드
    /// Example: 2
    pub MMEAL_SC_CODE: String,

    /// 식사명
    /// Example: 중식
    pub MMEAL_SC_NM: String,

    /// 급식일자
    /// Example: 20210104
    pub MLSV_YMD: String,

    /// 급식인원수
    /// Example: 498
    pub MLSV_FGR: i32,

    /// 요리명
    pub DDISH_NM: String,

    /// 원산지정보
    pub ORPLC_INFO: String,

    /// 칼로리정보
    pub CAL_INFO: Option<String>,

    /// 영양정보
    pub NTR_INFO: Option<String>,

    /// 급식시작일자
    /// Example: 20210104
    pub MLSV_FROM_YMD: String,

    /// 급식종료일자
    /// Example: 20210104
    pub MLSV_TO_YMD: String,

    /// 수정일자
    /// Example: 20210111043017
    pub LOAD_DTM: String,
}

} // verus!
