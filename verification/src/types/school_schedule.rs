#![allow(non_snake_case)]

use vstd::prelude::*;
use vstd::string::*;

use super::ToQueryString;
use crate::query::{optional_pair, QueryWriter};
use crate::text::{date_string, date_text};

verus! {

/// Parameters of a request for the calendar of a school (학사일정).
#[derive(Debug, Clone)]
pub struct SchoolScheduleParams {
    /// 시도교육청코드
    pub ATPT_OFCDC_SC_CODE: String,
    /// 행정표준코드
    pub SD_SCHUL_CODE: String,
    /// 주야과정명
    pub DGHT_CRSE_SC_NM: Option<String>,
    /// 학교과정명
    pub SCHUL_CRSE_SC_NM: Option<String>,
    /// 학사일자
    pub AA_YMD: Option<String>,
    /// 학사시작일자
    pub AA_FROM_YMD: Option<String>,
    /// 학사종료일자
    pub AA_TO_YMD: Option<String>,
}

impl SchoolScheduleParams {
    /// Parameters that name the office of education and the school, and nothing
    /// else.
    pub fn new(atpt_ofcdc_sc_code: &str, sd_schul_code: &str) -> (params: Self)
        ensures
            params.ATPT_OFCDC_SC_CODE@ == atpt_ofcdc_sc_code@,
            params.SD_SCHUL_CODE@ == sd_schul_code@,
            params.DGHT_CRSE_SC_NM is None,
            params.SCHUL_CRSE_SC_NM is None,
            params.AA_YMD is None,
            params.AA_FROM_YMD is None,
            params.AA_TO_YMD is None,
    {
        Self {
            ATPT_OFCDC_SC_CODE: atpt_ofcdc_sc_code.to_owned(),
            SD_SCHUL_CODE: sd_schul_code.to_owned(),
            DGHT_CRSE_SC_NM: None,
            SCHUL_CRSE_SC_NM: None,
            AA_YMD: None,
            AA_FROM_YMD: None,
            AA_TO_YMD: None,
        }
    }

    /// The same parameters, with `AA_YMD` set to the date as `YYYYMMDD`.
    pub fn ymd(self, year: i32, month: u32, day: u32) -> (params: Self)
        ensures
            params.AA_YMD matches Some(text)
                && text@ == date_text(year as int, month as nat, day as nat),
            params == (Self { AA_YMD: params.AA_YMD, ..self }),
    {
        let mut params = self;
        params.AA_YMD = Some(date_string(year, month, day));
        params
    }

    /// The same parameters, with `AA_FROM_YMD` set to the date as `YYYYMMDD`.
    pub fn from_ymd(self, year: i32, month: u32, day: u32) -> (params: Self)
        ensures
            params.AA_FROM_YMD matches Some(text)
                && text@ == date_text(year as int, month as nat, day as nat),
            params == (Self { AA_FROM_YMD: params.AA_FROM_YMD, ..self }),
    {
        let mut params = self;
        params.AA_FROM_YMD = Some(date_string(year, month, day));
        params
    }

    /// The same parameters, with `AA_TO_YMD` set to the date as `YYYYMMDD`.
    pub fn to_ymd(self, year: i32, month: u32, day: u32) -> (params: Self)
        ensures
            params.AA_TO_YMD matches Some(text)
                && text@ == date_text(year as int, month as nat, day as nat),
            params == (Self { AA_TO_YMD: params.AA_TO_YMD, ..self }),
    {
        let mut params = self;
        params.AA_TO_YMD = Some(date_string(year, month, day));
        params
    }
}

impl ToQueryString for SchoolScheduleParams {
    open spec fn pairs(&self) -> Seq<(Seq<char>, Seq<char>)> {
        seq![
            ("ATPT_OFCDC_SC_CODE"@, self.ATPT_OFCDC_SC_CODE@),
            ("SD_SCHUL_CODE"@, self.SD_SCHUL_CODE@),
        ]
            + optional_pair("DGHT_CRSE_SC_NM"@, self.DGHT_CRSE_SC_NM)
            + optional_pair("SCHUL_CRSE_SC_NM"@, self.SCHUL_CRSE_SC_NM)
            + optional_pair("AA_YMD"@, self.AA_YMD)
            + optional_pair("AA_FROM_YMD"@, self.AA_FROM_YMD)
            + optional_pair("AA_TO_YMD"@, self.AA_TO_YMD)
    }

    fn to_query_string(&self) -> (query: String) {
        let mut writer = QueryWriter::new();
        writer.pair("ATPT_OFCDC_SC_CODE", self.ATPT_OFCDC_SC_CODE.as_str());
        writer.pair("SD_SCHUL_CODE", self.SD_SCHUL_CODE.as_str());
        assert(writer.pairs() =~= seq![
            ("ATPT_OFCDC_SC_CODE"@, self.ATPT_OFCDC_SC_CODE@),
            ("SD_SCHUL_CODE"@, self.SD_SCHUL_CODE@),
        ]);
        writer.optional("DGHT_CRSE_SC_NM", &self.DGHT_CRSE_SC_NM);
        writer.optional("SCHUL_CRSE_SC_NM", &self.SCHUL_CRSE_SC_NM);
        writer.optional("AA_YMD", &self.AA_YMD);
        writer.optional("AA_FROM_YMD", &self.AA_FROM_YMD);
        writer.optional("AA_TO_YMD", &self.AA_TO_YMD);
        writer.finish()
    }
}

/// One entry in the calendar of a school.
#[derive(Debug, Clone, PartialEq, Eq, Hash)]
pub struct SchoolScheduleItem {
    /// 시도교육청코드
    /// B10 | C10 | D10 | E10 | F10 | G10 | H10 | I10 | J10 | K10 | M10 | N10 | P10 | Q10 | R10 | S10 | T10 | V10
    pub ATPT_OFCDC_SC_CODE: String,

    /// 시도교육청명
    /// Example: 서울특별시교육청
    pub ATPT_OFCDC_SC_NM: String,

    /// 행정표준코드
    /// Example: 7010959
    pub SD_SCHUL_CODE: String,

    /// 학교명
    /// Example: 문현고등학교
    pub SCHUL_NM: String,

    /// 학년도
    /// Example: 2024
    pub AY: i32,

    /// 주야과정명
    /// Example: 주간
    pub DGHT_CRSE_SC_NM: Option<String>,

    /// 학교과정명
    /// Example: 고등학교
    pub SCHUL_CRSE_SC_NM: Option<String>,

    /// 수업공제일명
    /// Example: 휴업일
    pub SBTR_DD_SC_NM: Option<String>,

    /// 학사일자
    /// Example: 20240309
    pub AA_YMD: String,

    /// 행사명
    /// Example: 토요휴업일
    pub EVENT_NM: String,

    /// 행사내용
    /// Example:
    pub EVENT_CNTNT: String,

    /// 1학년행사여부
    /// Y | N
    pub ONE_GRADE_EVENT_YN: String,

    /// 2학년행사여부
    /// Y | N
    pub TW_GRADE_EVENT_YN: String,

    /// 3학년행사여부
    /// Y | N
    pub THREE_GRADE_EVENT_YN: String,

    /// 4학년행사여부
    /// Y | N | *
    pub FR_GRADE_EVENT_YN: String,

    /// 5학년행사여부
    /// Y | N | *
    pub FIV_GRADE_EVENT_YN: String,

    /// 6학년행사여부
    /// Y | N | *
    pub SIX_GRADE_EVENT_YN: String,

    /// 수정일자
    /// Example: 20250930
    pub LOAD_DTM: String,
}

impl SchoolScheduleItem {
    /// The flag that the entry holds for a grade from 1 to 6.
    pub open spec fn grade_flag(&self, grade: u8) -> Seq<char>
        recommends
            1 <= grade <= 6,
    {
        if grade == 1 {
            self.ONE_GRADE_EVENT_YN@
        } else if grade == 2 {
            self.TW_GRADE_EVENT_YN@
        } else if grade == 3 {
            self.THREE_GRADE_EVENT_YN@
        } else if grade == 4 {
            self.FR_GRADE_EVENT_YN@
        } else if grade == 5 {
            self.FIV_GRADE_EVENT_YN@
        } else {
            self.SIX_GRADE_EVENT_YN@
        }
    }

    /// Whether the entry concerns a grade: the grade is one from 1 to 6 and
    /// the entry's flag for it is `Y`.
    pub fn is_event_for_grade(&self, grade: u8) -> (concerned: bool)
        ensures
            concerned == (1 <= grade <= 6 && self.grade_flag(grade) == seq!['Y']),
    {
        match grade {
            1 => is_yes(self.ONE_GRADE_EVENT_YN.as_str()),
            2 => is_yes(self.TW_GRADE_EVENT_YN.as_str()),
            3 => is_yes(self.THREE_GRADE_EVENT_YN.as_str()),
            4 => is_yes(self.FR_GRADE_EVENT_YN.as_str()),
            5 => is_yes(self.FIV_GRADE_EVENT_YN.as_str()),
            6 => is_yes(self.SIX_GRADE_EVENT_YN.as_str()),
            _ => false,
        }
    }
}

/// Whether a flag is `Y`.
fn is_yes(flag: &str) -> (yes: bool)
    ensures
        yes == (flag@ == seq!['Y']),
{
    if flag.unicode_len() == 1 {
        let yes = flag.get_char(0) == 'Y';
        assert(yes == (flag@ =~= seq!['Y']));
        yes
    } else {
        false
    }
}

} // verus!
