//! The yearly HR training course in Canvas: its term, course, section and teacher
//! enrollments, and the users and student enrollments built from the HR exports.

use vstd::prelude::*;
use chrono::{Datelike, Timelike};
use crate::canvas::csv_defs::{
    ADCIDStatus, ADCPStatus, ADStatus, ASDStatus, AccountId, CanvasDateTime, Course, CourseId, Enrollment,
    LoginId, Role, Section, SectionId, SetDelete, Term, TermId, User, UserId,
};
use crate::csv_row_definitions::{INT069ARow, INT069BRow, filled_position_by_employee, filled_position_of, opt_index};
use crate::search::{last_where, lemma_last_where};
use crate::text::{concat_str, i32_to_decimal, spec_int_decimal, str_eq, u64_to_decimal, spec_decimal};

verus! {

/// The training dates are given at midnight, local time; Canvas reads them as UTC, so
/// they are moved this many hours ahead.
pub const HOURS_OFFSET: i64 = 7;

/// The first year that chrono's dates reach.
pub open spec fn chrono_min_year() -> int {
    -262143
}

/// The last year that chrono's dates reach (December 31st of it is its last day).
pub open spec fn chrono_max_year() -> int {
    262142
}

/// A leap year of the proleptic Gregorian calendar.
pub open spec fn is_leap_year(y: int) -> bool {
    y % 4 == 0 && (y % 100 != 0 || y % 400 == 0)
}

/// The number of days in month `m` of year `y`.
pub open spec fn days_in_month(y: int, m: int) -> int {
    if m == 2 {
        if is_leap_year(y) { 29 } else { 28 }
    } else if m == 4 || m == 6 || m == 9 || m == 11 {
        30
    } else {
        31
    }
}

/// A date and time that chrono accepts: a day of its range and a time of day without
/// leap second.
pub open spec fn is_valid_datetime(dt: CanvasDateTime) -> bool {
    &&& chrono_min_year() <= dt.year <= chrono_max_year()
    &&& 1 <= dt.month <= 12
    &&& 1 <= dt.day <= days_in_month(dt.year as int, dt.month as int)
    &&& dt.hour < 24
    &&& dt.minute < 60
    &&& dt.second < 60
}

/// `dt` moved `hours` hours ahead (less than a day): the same day at a later hour, or
/// the next day, which may start a new month or year; `None` where `dt` is not a date
/// and time that chrono accepts, or the next day lies past chrono's last year.
pub open spec fn spec_add_hours(dt: CanvasDateTime, hours: i64) -> Option<CanvasDateTime> {
    if !is_valid_datetime(dt) {
        None
    } else if dt.hour + hours < 24 {
        Some(CanvasDateTime { hour: (dt.hour + hours) as u32, ..dt })
    } else {
        let hour = (dt.hour + hours - 24) as u32;
        if dt.day < days_in_month(dt.year as int, dt.month as int) {
            Some(CanvasDateTime { day: (dt.day + 1) as u32, hour, ..dt })
        } else if dt.month < 12 {
            Some(CanvasDateTime { month: (dt.month + 1) as u32, day: 1, hour, ..dt })
        } else if dt.year < chrono_max_year() {
            Some(CanvasDateTime { year: (dt.year + 1) as i32, month: 1, day: 1, hour, ..dt })
        } else {
            None
        }
    }
}

/// The date and time `dt` moved `hours` hours ahead, through `chrono`
/// (`NaiveDate::from_ymd_opt`, `NaiveDate::and_hms_opt`, `TimeDelta::try_hours`,
/// `NaiveDateTime::checked_add_signed`). The contract claims what these calls do for a
/// shift of less than a day: `None` for a date or time that chrono refuses or a result
/// past its last day, else the same time of day `hours` later, on the next day when it
/// passes midnight.
#[verifier::external_body]
fn shift_hours(dt: CanvasDateTime, hours: i64) -> (r: Option<CanvasDateTime>)
    requires
        0 <= hours < 24,
    ensures
        r == spec_add_hours(dt, hours),
{
    let shifted = chrono::NaiveDate::from_ymd_opt(dt.year, dt.month, dt.day)
        .and_then(|d| d.and_hms_opt(dt.hour, dt.minute, dt.second))
        .and_then(|t| chrono::TimeDelta::try_hours(hours).and_then(|h| t.checked_add_signed(h)));
    shifted.map(|s| CanvasDateTime {
        year: s.year(),
        month: s.month(),
        day: s.day(),
        hour: s.hour(),
        minute: s.minute(),
        second: s.second(),
    })
}

/// A date and time given by its parts.
pub open spec fn spec_datetime(year: int, month: int, day: int, hour: int, minute: int, second: int) -> CanvasDateTime {
    CanvasDateTime {
        year: year as i32,
        month: month as u32,
        day: day as u32,
        hour: hour as u32,
        minute: minute as u32,
        second: second as u32,
    }
}

/// The start and end of the training year `year`: January 1st 00:00:00 and
/// December 31st 23:59:59, each moved by the offset, which gives January 1st 07:00:00
/// and January 1st 06:59:59 of the next year; `None` where chrono's dates do not reach
/// that far.
pub fn hr_training_window(year: i32) -> (r: Option<(CanvasDateTime, CanvasDateTime)>)
    ensures
        chrono_min_year() <= year < chrono_max_year() ==> r == Some((
            spec_datetime(year as int, 1, 1, 7, 0, 0),
            spec_datetime(year + 1, 1, 1, 6, 59, 59),
        )),
        !(chrono_min_year() <= year < chrono_max_year()) ==> r is None,
{
    let first = CanvasDateTime { year, month: 1, day: 1, hour: 0, minute: 0, second: 0 };
    let last = CanvasDateTime { year, month: 12, day: 31, hour: 23, minute: 59, second: 59 };
    match (shift_hours(first, HOURS_OFFSET), shift_hours(last, HOURS_OFFSET)) {
        (Some(s), Some(e)) => Some((s, e)),
        _ => None,
    }
}

/// The term ID and name of the training year.
pub open spec fn spec_term_name(year: i32) -> Seq<char> {
    "Calendar Year "@ + spec_int_decimal(year as int)
}

/// The course ID of the training year.
pub open spec fn spec_course_id(year: i32) -> Seq<char> {
    "C_HR_ANNUAL_TRAINING_YEAR_"@ + spec_int_decimal(year as int)
}

/// The section ID of the training year.
pub open spec fn spec_section_id(year: i32) -> Seq<char> {
    "S_HR_ANNUAL_TRAINING_YEAR_"@ + spec_int_decimal(year as int)
}

/// The course and section name of the training year.
pub open spec fn spec_display_name(year: i32) -> Seq<char> {
    "HR Annual Training "@ + spec_int_decimal(year as int)
}

/// `t` is the term of the training year.
pub open spec fn is_training_term(t: Term, year: i32, start: CanvasDateTime, end: CanvasDateTime) -> bool {
    &&& t.term_id.0@ == spec_term_name(year)
    &&& t.name@ == spec_term_name(year)
    &&& t.status == ADStatus::Active
    &&& t.integration_id is None
    &&& t.date_override_enrollment_type is None
    &&& t.start_date == Some(start)
    &&& t.end_date == Some(end)
}

/// `c` is the course of the training year.
pub open spec fn is_training_course(c: Course, year: i32, start: CanvasDateTime, end: CanvasDateTime) -> bool {
    &&& c.course_id.0@ == spec_course_id(year)
    &&& c.short_name@ == spec_display_name(year)
    &&& c.long_name@ == spec_display_name(year)
    &&& (c.account_id matches Some(a) && a.0@ == "Workshops"@)
    &&& (c.term_id matches Some(t) && t.0@ == spec_term_name(year))
    &&& c.status == ADCPStatus::Active
    &&& c.integration_id is None
    &&& (c.start_date matches Some(SetDelete::Value(d)) && d == start)
    &&& (c.end_date matches Some(SetDelete::Value(d)) && d == end)
    &&& c.course_format is None
    &&& c.blueprint_course_id is None
    &&& c.grade_passback_setting is None
    &&& c.homeroom_course is None
    &&& c.friendly_name is None
}

/// `s` is the section of the training year.
pub open spec fn is_training_section(s: Section, year: i32, start: CanvasDateTime, end: CanvasDateTime) -> bool {
    &&& s.section_id.0@ == spec_section_id(year)
    &&& s.course_id.0@ == spec_course_id(year)
    &&& s.name@ == spec_display_name(year)
    &&& s.status == ADStatus::Active
    &&& s.integration_id is None
    &&& s.start_date == Some(start)
    &&& s.end_date == Some(end)
}

/// `e` enrolls the user `user` with the role `role` and the status `status` in the
/// given course and section, with no other column set but an empty associated user.
pub open spec fn is_training_enrollment(
    e: Enrollment,
    user: Seq<char>,
    role: Seq<char>,
    status: ADCIDStatus,
    course: Seq<char>,
    section: Seq<char>,
) -> bool {
    &&& (e.course_id matches Some(c) && c.0@ == course)
    &&& e.root_account is None
    &&& e.start_date is None
    &&& e.end_date is None
    &&& (e.user_id matches Some(u) && u.0@ == user)
    &&& e.user_integration_id is None
    &&& (e.role matches Some(r) && r.0@ == role)
    &&& e.role_id is None
    &&& (e.section_id matches Some(s) && s.0@ == section)
    &&& e.status == status
    &&& (e.associated_user_id matches Some(a) && a.0@.len() == 0)
    &&& e.limit_section_privileges is None
    &&& e.notify is None
}

/// The teachers of the training course, by C-number.
pub open spec fn spec_teacher(i: int) -> Seq<char> {
    if i == 0 {
        "C00045541"@
    } else if i == 1 {
        "C00082030"@
    } else {
        "C00069811"@
    }
}

/// The fixed part of the training course of one year.
pub struct HrTrainingCalendar {
    pub terms: Vec<Term>,
    pub courses: Vec<Course>,
    pub sections: Vec<Section>,
    pub enrollments: Vec<Enrollment>,
}

fn training_enrollment(user: &str, role: &str, status: ADCIDStatus, course: &CourseId, section: &SectionId) -> (e: Enrollment)
    ensures
        is_training_enrollment(e, user@, role@, status, course.0@, section.0@),
{
    Enrollment {
        course_id: Some(CourseId(course.0.clone())),
        root_account: None,
        start_date: None,
        end_date: None,
        user_id: Some(UserId(user.to_owned())),
        user_integration_id: None,
        role: Some(Role(role.to_owned())),
        role_id: None,
        section_id: Some(SectionId(section.0.clone())),
        status,
        associated_user_id: Some(UserId(String::new())),
        limit_section_privileges: None,
        notify: None,
    }
}

/// The term, course, section and teacher enrollments of the training year `year`,
/// which runs from `start` to `end`.
pub fn hr_training_calendar(year: i32, start: CanvasDateTime, end: CanvasDateTime) -> (c: HrTrainingCalendar)
    ensures
        c.terms@.len() == 1,
        is_training_term(c.terms@[0], year, start, end),
        c.courses@.len() == 1,
        is_training_course(c.courses@[0], year, start, end),
        c.sections@.len() == 1,
        is_training_section(c.sections@[0], year, start, end),
        c.enrollments@.len() == 3,
        forall|i: int| 0 <= i < 3 ==> is_training_enrollment(#[trigger] c.enrollments@[i], spec_teacher(i),
            "teacher"@, ADCIDStatus::Active, spec_course_id(year), spec_section_id(year)),
{
    let y = i32_to_decimal(year);
    let term_name = concat_str("Calendar Year ", y.as_str());
    let course_id = CourseId(concat_str("C_HR_ANNUAL_TRAINING_YEAR_", y.as_str()));
    let section_id = SectionId(concat_str("S_HR_ANNUAL_TRAINING_YEAR_", y.as_str()));
    let name = concat_str("HR Annual Training ", y.as_str());
    let mut terms: Vec<Term> = Vec::new();
    terms.push(Term {
        term_id: TermId(term_name.clone()),
        name: term_name.clone(),
        status: ADStatus::Active,
        integration_id: None,
        date_override_enrollment_type: None,
        start_date: Some(start),
        end_date: Some(end),
    });
    let mut courses: Vec<Course> = Vec::new();
    courses.push(Course {
        course_id: CourseId(course_id.0.clone()),
        short_name: name.clone(),
        long_name: name.clone(),
        account_id: Some(AccountId("Workshops".to_owned())),
        term_id: Some(TermId(term_name.clone())),
        status: ADCPStatus::Active,
        integration_id: None,
        start_date: Some(SetDelete::Value(start)),
        end_date: Some(SetDelete::Value(end)),
        course_format: None,
        blueprint_course_id: None,
        grade_passback_setting: None,
        homeroom_course: None,
        friendly_name: None,
    });
    let mut sections: Vec<Section> = Vec::new();
    sections.push(Section {
        section_id: SectionId(section_id.0.clone()),
        course_id: CourseId(course_id.0.clone()),
        name: name,
        status: ADStatus::Active,
        integration_id: None,
        start_date: Some(start),
        end_date: Some(end),
    });
    let mut enrollments: Vec<Enrollment> = Vec::new();
    enrollments.push(training_enrollment("C00045541", "teacher", ADCIDStatus::Active, &course_id, &section_id));
    enrollments.push(training_enrollment("C00082030", "teacher", ADCIDStatus::Active, &course_id, &section_id));
    enrollments.push(training_enrollment("C00069811", "teacher", ADCIDStatus::Active, &course_id, &section_id));
    HrTrainingCalendar { terms, courses, sections, enrollments }
}

/// Something about an employee that kept them out of the training, or that looked wrong.
#[derive(Debug)]
pub enum HrWarning {
    /// An employee with a position has no legacy Banner ID (C-number).
    NoBannerLoginId {
        employee_id: String,
        preferred_last_name: String,
        preferred_first_name: String,
        preferred_middle_name: String,
    },
    /// An employee's C-number has no Banner login.
    NoLoginMapping {
        employee_id: String,
        banner_id: String,
        preferred_last_name: String,
        preferred_first_name: String,
        preferred_middle_name: String,
    },
    /// An employee's position has a time type other than `Full time` or `Part time`;
    /// the employee's enrollment is deleted.
    UnexpectedTimeType {
        actual: String,
        employee_id: String,
        banner_id: String,
        preferred_last_name: String,
        preferred_first_name: String,
        preferred_middle_name: String,
    },
}

/// Login rows (C-number, login) for the C-number `cnum`.
pub open spec fn login_row_for(cnum: Seq<char>) -> spec_fn((String, String)) -> bool {
    |p: (String, String)| p.0@ == cnum
}

/// The login row that maps the C-number `cnum` to a login: the last row for `cnum`, when
/// its login is not empty.
pub open spec fn login_of(logins: Seq<(String, String)>, cnum: Seq<char>) -> Option<int> {
    match last_where(logins, login_row_for(cnum)) {
        Some(i) => if logins[i].1@.len() > 0 {
            Some(i)
        } else {
            None
        },
        None => None,
    }
}

/// The position that counts for the employee row `r`.
pub open spec fn job_of(int069b: Seq<INT069BRow>, r: INT069ARow) -> Option<int> {
    last_where(int069b, filled_position_of(r.Employee_ID@))
}

/// The warnings about employees with a position but no C-number, in row order.
pub open spec fn missing_cnum_warnings(int069a: Seq<INT069ARow>, int069b: Seq<INT069BRow>) -> Seq<HrWarning>
    decreases int069a.len(),
{
    if int069a.len() == 0 {
        seq![]
    } else {
        let prev = missing_cnum_warnings(int069a.drop_last(), int069b);
        let r = int069a.last();
        if job_of(int069b, r) is Some && r.Legacy_Banner_ID@.len() == 0 {
            prev.push(HrWarning::NoBannerLoginId {
                employee_id: r.Employee_ID,
                preferred_last_name: r.Preferred_Name_Last_Name,
                preferred_first_name: r.Preferred_Name_First_Name,
                preferred_middle_name: r.Preferred_Name_Middle_Name,
            })
        } else {
            prev
        }
    }
}

/// An employee that takes part in the training: its row, its login row, and the
/// status of its enrollment.
pub struct HrEntry {
    pub row: int,
    pub login: int,
    pub status: ADCIDStatus,
}

/// The enrollment status for a position's time type.
pub open spec fn status_for_time_type(t: Seq<char>) -> ADCIDStatus {
    if t == "Full time"@ {
        ADCIDStatus::Active
    } else {
        ADCIDStatus::Deleted
    }
}

/// The employees that take part in the training, and the warnings raised on the way,
/// both in row order: each employee with a position and a C-number takes part when its
/// C-number has a login; its enrollment is active for a full-time position and deleted
/// otherwise, with a warning when the time type is neither full nor part time.
pub open spec fn hr_entries(
    int069a: Seq<INT069ARow>,
    int069b: Seq<INT069BRow>,
    logins: Seq<(String, String)>,
) -> (Seq<HrEntry>, Seq<HrWarning>)
    decreases int069a.len(),
{
    if int069a.len() == 0 {
        (seq![], seq![])
    } else {
        let (es, ws) = hr_entries(int069a.drop_last(), int069b, logins);
        let i = int069a.len() - 1;
        let r = int069a.last();
        if job_of(int069b, r) is None || r.Legacy_Banner_ID@.len() == 0 {
            (es, ws)
        } else {
            match login_of(logins, r.Legacy_Banner_ID@) {
                None => (es, ws.push(HrWarning::NoLoginMapping {
                    employee_id: r.Employee_ID,
                    banner_id: r.Legacy_Banner_ID,
                    preferred_last_name: r.Preferred_Name_Last_Name,
                    preferred_first_name: r.Preferred_Name_First_Name,
                    preferred_middle_name: r.Preferred_Name_Middle_Name,
                })),
                Some(l) => {
                    let t = int069b[job_of(int069b, r).unwrap()].Time_Type;
                    let e = HrEntry { row: i, login: l, status: status_for_time_type(t@) };
                    if t@ == "Full time"@ || t@ == "Part time"@ {
                        (es.push(e), ws)
                    } else {
                        (es.push(e), ws.push(HrWarning::UnexpectedTimeType {
                            actual: t,
                            employee_id: r.Employee_ID,
                            banner_id: r.Legacy_Banner_ID,
                            preferred_last_name: r.Preferred_Name_Last_Name,
                            preferred_first_name: r.Preferred_Name_First_Name,
                            preferred_middle_name: r.Preferred_Name_Middle_Name,
                        }))
                    }
                },
            }
        }
    }
}

/// `u` is the Canvas user of the employee row `r`, who logs in as `login`.
pub open spec fn is_training_user(u: User, r: INT069ARow, login: String) -> bool {
    &&& u.user_id == UserId(r.Legacy_Banner_ID)
    &&& u.integration_id is None
    &&& u.login_id == LoginId(login)
    &&& u.password is None
    &&& u.ssha_password is None
    &&& u.authentication_provider_id is None
    &&& u.first_name == Some(r.Preferred_Name_First_Name)
    &&& u.last_name == Some(r.Preferred_Name_Last_Name)
    &&& u.full_name is None
    &&& u.sortable_name is None
    &&& u.short_name is None
    &&& u.email == Some(r.User_Name)
    &&& u.pronouns is None
    &&& u.declared_user_type is None
    &&& u.canvas_password_notification is None
    &&& u.home_account is None
    &&& u.status == ASDStatus::Active
}

/// The employees of the training year: their users, their student enrollments, and the warnings.
pub struct HrTrainingPeople {
    pub users: Vec<User>,
    pub user_enrollments: Vec<Enrollment>,
    pub warnings: Vec<HrWarning>,
}

/// The last login row for the C-number `cnum`, when its login is not empty.
pub fn login_for_cnum(logins: &Vec<(String, String)>, cnum: &str) -> (r: Option<usize>)
    ensures
        opt_index(r) == login_of(logins@, cnum@),
        r matches Some(i) ==> i < logins@.len(),
{
    let mut found: Option<usize> = None;
    let mut i: usize = 0;
    while i < logins.len()
        invariant
            i <= logins@.len(),
            opt_index(found) == last_where(logins@.take(i as int), login_row_for(cnum@)),
        decreases logins.len() - i,
    {
        assert(logins@.take(i + 1).drop_last() =~= logins@.take(i as int));
        if str_eq(logins[i].0.as_str(), cnum) {
            found = Some(i);
        }
        i = i + 1;
    }
    assert(logins@.take(logins@.len() as int) =~= logins@);
    proof {
        lemma_last_where(logins@, login_row_for(cnum@));
    }
    match found {
        Some(j) => if logins[j].1.as_str().is_empty() {
            None
        } else {
            Some(j)
        },
        None => None,
    }
}

/// `users` are the Canvas users built for the employees that take part: one for each
/// entry, as `hr_training_people` builds them.
pub open spec fn are_training_users(
    int069a: Seq<INT069ARow>,
    int069b: Seq<INT069BRow>,
    logins: Seq<(String, String)>,
    users: Seq<User>,
) -> bool {
    &&& users.len() == hr_entries(int069a, int069b, logins).0.len()
    &&& forall|k: int| 0 <= k < users.len() ==> {
        let e = #[trigger] hr_entries(int069a, int069b, logins).0[k];
        &&& 0 <= e.row < int069a.len()
        &&& 0 <= e.login < logins.len()
        &&& is_training_user(users[k], int069a[e.row], logins[e.login].1)
    }
}

/// The users, student enrollments and warnings of the training year, from the employee
/// rows `int069a`, the position rows `int069b` and the login rows `logins`
/// (C-number, login), for the course `course_id` and its section `section_id`.
/// First come the warnings about employees without C-number, then those raised while
/// enrolling.
pub fn hr_training_people(
    int069a: &Vec<INT069ARow>,
    int069b: &Vec<INT069BRow>,
    logins: &Vec<(String, String)>,
    course_id: &CourseId,
    section_id: &SectionId,
) -> (p: HrTrainingPeople)
    ensures
        p.warnings@ == missing_cnum_warnings(int069a@, int069b@) + hr_entries(int069a@, int069b@, logins@).1,
        p.users@.len() == hr_entries(int069a@, int069b@, logins@).0.len(),
        p.user_enrollments@.len() == hr_entries(int069a@, int069b@, logins@).0.len(),
        are_training_users(int069a@, int069b@, logins@, p.users@),
        forall|k: int| 0 <= k < p.users@.len() ==> {
            let e = #[trigger] hr_entries(int069a@, int069b@, logins@).0[k];
            &&& 0 <= e.row < int069a@.len()
            &&& 0 <= e.login < logins@.len()
            &&& is_training_user(p.users@[k], int069a@[e.row], logins@[e.login].1)
            &&& is_training_enrollment(p.user_enrollments@[k], int069a@[e.row].Legacy_Banner_ID@,
                "student"@, e.status, course_id.0@, section_id.0@)
        },
{
    let mut warnings: Vec<HrWarning> = Vec::new();
    let mut i: usize = 0;
    while i < int069a.len()
        invariant
            i <= int069a@.len(),
            warnings@ == missing_cnum_warnings(int069a@.take(i as int), int069b@),
        decreases int069a.len() - i,
    {
        let r = &int069a[i];
        assert(int069a@.take(i + 1).drop_last() =~= int069a@.take(i as int));
        assert(int069a@.take(i + 1).last() == r);
        let job = filled_position_by_employee(int069b, r.Employee_ID.as_str());
        if job.is_some() && r.Legacy_Banner_ID.as_str().is_empty() {
            warnings.push(HrWarning::NoBannerLoginId {
                employee_id: r.Employee_ID.clone(),
                preferred_last_name: r.Preferred_Name_Last_Name.clone(),
                preferred_first_name: r.Preferred_Name_First_Name.clone(),
                preferred_middle_name: r.Preferred_Name_Middle_Name.clone(),
            });
        }
        i = i + 1;
    }
    assert(int069a@.take(int069a@.len() as int) =~= int069a@);
    let ghost first_warnings = warnings@;
    let mut users: Vec<User> = Vec::new();
    let mut user_enrollments: Vec<Enrollment> = Vec::new();
    let mut i: usize = 0;
    while i < int069a.len()
        invariant
            i <= int069a@.len(),
            first_warnings == missing_cnum_warnings(int069a@, int069b@),
            warnings@ == first_warnings + hr_entries(int069a@.take(i as int), int069b@, logins@).1,
            users@.len() == hr_entries(int069a@.take(i as int), int069b@, logins@).0.len(),
            user_enrollments@.len() == users@.len(),
            forall|k: int| 0 <= k < users@.len() ==> {
                let e = #[trigger] hr_entries(int069a@.take(i as int), int069b@, logins@).0[k];
                &&& 0 <= e.row < i
                &&& 0 <= e.login < logins@.len()
                &&& is_training_user(users@[k], int069a@[e.row], logins@[e.login].1)
                &&& is_training_enrollment(user_enrollments@[k], int069a@[e.row].Legacy_Banner_ID@,
                    "student"@, e.status, course_id.0@, section_id.0@)
            },
        decreases int069a.len() - i,
    {
        let r = &int069a[i];
        let ghost pre = int069a@.take(i as int);
        let ghost cur = int069a@.take(i + 1);
        assert(cur.drop_last() =~= pre);
        assert(cur.last() == r);
        let ghost prev_entries = hr_entries(pre, int069b@, logins@).0;
        let job = filled_position_by_employee(int069b, r.Employee_ID.as_str());
        if let Some(j) = job {
            if !r.Legacy_Banner_ID.as_str().is_empty() {
                match login_for_cnum(logins, r.Legacy_Banner_ID.as_str()) {
                    None => {
                        warnings.push(HrWarning::NoLoginMapping {
                            employee_id: r.Employee_ID.clone(),
                            banner_id: r.Legacy_Banner_ID.clone(),
                            preferred_last_name: r.Preferred_Name_Last_Name.clone(),
                            preferred_first_name: r.Preferred_Name_First_Name.clone(),
                            preferred_middle_name: r.Preferred_Name_Middle_Name.clone(),
                        });
                        assert(warnings@ =~= first_warnings + hr_entries(cur, int069b@, logins@).1);
                    },
                    Some(l) => {
                        let time_type = int069b[j].Time_Type.as_str();
                        let full = str_eq(time_type, "Full time");
                        let part = str_eq(time_type, "Part time");
                        let status = if full {
                            ADCIDStatus::Active
                        } else {
                            ADCIDStatus::Deleted
                        };
                        if !full && !part {
                            warnings.push(HrWarning::UnexpectedTimeType {
                                actual: int069b[j].Time_Type.clone(),
                                employee_id: r.Employee_ID.clone(),
                                banner_id: r.Legacy_Banner_ID.clone(),
                                preferred_last_name: r.Preferred_Name_Last_Name.clone(),
                                preferred_first_name: r.Preferred_Name_First_Name.clone(),
                                preferred_middle_name: r.Preferred_Name_Middle_Name.clone(),
                            });
                        }
                        user_enrollments.push(training_enrollment(
                            r.Legacy_Banner_ID.as_str(), "student", status, course_id, section_id));
                        users.push(User {
                            user_id: UserId(r.Legacy_Banner_ID.clone()),
                            integration_id: None,
                            login_id: LoginId(logins[l].1.clone()),
                            password: None,
                            ssha_password: None,
                            authentication_provider_id: None,
                            first_name: Some(r.Preferred_Name_First_Name.clone()),
                            last_name: Some(r.Preferred_Name_Last_Name.clone()),
                            full_name: None,
                            sortable_name: None,
                            short_name: None,
                            email: Some(r.User_Name.clone()),
                            pronouns: None,
                            declared_user_type: None,
                            canvas_password_notification: None,
                            home_account: None,
                            status: ASDStatus::Active,
                        });
                        assert(warnings@ =~= first_warnings + hr_entries(cur, int069b@, logins@).1);
                        assert forall|k: int| 0 <= k < users@.len() implies {
                            let e = #[trigger] hr_entries(cur, int069b@, logins@).0[k];
                            &&& 0 <= e.row < i + 1
                            &&& 0 <= e.login < logins@.len()
                            &&& is_training_user(users@[k], int069a@[e.row], logins@[e.login].1)
                            &&& is_training_enrollment(user_enrollments@[k], int069a@[e.row].Legacy_Banner_ID@,
                                "student"@, e.status, course_id.0@, section_id.0@)
                        } by {
                            if k < users@.len() - 1 {
                                assert(hr_entries(cur, int069b@, logins@).0[k] == prev_entries[k]);
                            }
                        }
                    },
                }
            }
        }
        i = i + 1;
    }
    assert(int069a@.take(int069a@.len() as int) =~= int069a@);
    assert(are_training_users(int069a@, int069b@, logins@, users@));
    HrTrainingPeople { users, user_enrollments, warnings }
}

/// Every Canvas user of the training course is one of the employees: its user ID is the
/// employee's legacy Banner ID (C-number), its first and last names are the employee's
/// preferred first and last names, and its e-mail is the employee's Workday user name.
pub proof fn lemma_training_users_are_employees(
    int069a: Seq<INT069ARow>,
    int069b: Seq<INT069BRow>,
    logins: Seq<(String, String)>,
    users: Seq<User>,
)
    requires
        are_training_users(int069a, int069b, logins, users),
    ensures
        forall|k: int| 0 <= k < users.len() ==> exists|i: int| {
            &&& 0 <= i < int069a.len()
            &&& (#[trigger] users[k]).user_id == UserId(int069a[i].Legacy_Banner_ID)
            &&& users[k].first_name == Some(int069a[i].Preferred_Name_First_Name)
            &&& users[k].last_name == Some(int069a[i].Preferred_Name_Last_Name)
            &&& users[k].email == Some(int069a[i].User_Name)
            &&& int069a[i].Legacy_Banner_ID@.len() > 0
        },
{
    lemma_training_entries_sound(int069a, int069b, logins);
    assert forall|k: int| 0 <= k < users.len() implies exists|i: int| {
        &&& 0 <= i < int069a.len()
        &&& (#[trigger] users[k]).user_id == UserId(int069a[i].Legacy_Banner_ID)
        &&& users[k].first_name == Some(int069a[i].Preferred_Name_First_Name)
        &&& users[k].last_name == Some(int069a[i].Preferred_Name_Last_Name)
        &&& users[k].email == Some(int069a[i].User_Name)
        &&& int069a[i].Legacy_Banner_ID@.len() > 0
    } by {
        let e = hr_entries(int069a, int069b, logins).0[k];
        assert(is_training_user(users[k], int069a[e.row], logins[e.login].1));
        let i = e.row;
        assert(users[k].last_name == Some(int069a[i].Preferred_Name_Last_Name));
    }
}

/// How many of the flags are set.
pub open spec fn spec_count_set(flags: Seq<bool>) -> nat
    decreases flags.len(),
{
    if flags.len() == 0 {
        0
    } else {
        spec_count_set(flags.drop_last()) + if flags.last() { 1nat } else { 0nat }
    }
}

/// The number of imports that failed, given whether each one did.
pub fn count_failed(failed: &[bool]) -> (n: usize)
    ensures
        n == spec_count_set(failed@),
{
    let mut n: usize = 0;
    let mut i: usize = 0;
    while i < failed.len()
        invariant
            i <= failed@.len(),
            n == spec_count_set(failed@.take(i as int)),
            n <= i,
        decreases failed.len() - i,
    {
        assert(failed@.take(i + 1).drop_last() =~= failed@.take(i as int));
        if failed[i] {
            n = n + 1;
        }
        i = i + 1;
    }
    assert(failed@.take(failed@.len() as int) =~= failed@);
    n
}

/// The status line of the training import: `success`, `success-with-warnings`, or
/// `errors: N` when `errors` of the imports failed.
pub fn training_status(errors: usize, has_warnings: bool) -> (s: String)
    ensures
        errors == 0 && !has_warnings ==> s@ == "success"@,
        errors == 0 && has_warnings ==> s@ == "success-with-warnings"@,
        errors > 0 ==> s@ == "errors: "@ + spec_decimal(errors as nat),
{
    if errors == 0 {
        if !has_warnings {
            "success".to_owned()
        } else {
            "success-with-warnings".to_owned()
        }
    } else {
        let n = u64_to_decimal(errors as u64);
        concat_str("errors: ", n.as_str())
    }
}

/// Only employees with a position, a C-number and a non-empty Banner login take part:
/// each entry names a row of `int069a` with a position and a non-empty C-number, and a
/// login row for that C-number whose login is not empty; the entries come in row order,
/// each row at most once.
pub proof fn lemma_training_entries_sound(
    int069a: Seq<INT069ARow>,
    int069b: Seq<INT069BRow>,
    logins: Seq<(String, String)>,
)
    ensures
        ({
            let es = hr_entries(int069a, int069b, logins).0;
            &&& forall|k: int| 0 <= k < es.len() ==> {
                let e = #[trigger] es[k];
                &&& 0 <= e.row < int069a.len()
                &&& job_of(int069b, int069a[e.row]) is Some
                &&& int069a[e.row].Legacy_Banner_ID@.len() > 0
                &&& 0 <= e.login < logins.len()
                &&& login_of(logins, int069a[e.row].Legacy_Banner_ID@) == Some(e.login)
                &&& logins[e.login].0@ == int069a[e.row].Legacy_Banner_ID@
                &&& logins[e.login].1@.len() > 0
            }
            &&& forall|k: int, l: int| 0 <= k < l < es.len() ==> #[trigger] es[k].row < #[trigger] es[l].row
        }),
    decreases int069a.len(),
{
    if int069a.len() > 0 {
        let pre = int069a.drop_last();
        lemma_training_entries_sound(pre, int069b, logins);
        let r = int069a.last();
        let es0 = hr_entries(pre, int069b, logins).0;
        let es = hr_entries(int069a, int069b, logins).0;
        assert forall|k: int| 0 <= k < es0.len() implies #[trigger] es0[k].row < pre.len() by {}
        if job_of(int069b, r) is Some && r.Legacy_Banner_ID@.len() > 0 {
            match login_of(logins, r.Legacy_Banner_ID@) {
                Some(l) => {
                    lemma_last_where(logins, login_row_for(r.Legacy_Banner_ID@));
                    assert(es.len() == es0.len() + 1);
                    assert forall|k: int| 0 <= k < es.len() implies {
                        let e = #[trigger] es[k];
                        &&& 0 <= e.row < int069a.len()
                        &&& job_of(int069b, int069a[e.row]) is Some
                        &&& int069a[e.row].Legacy_Banner_ID@.len() > 0
                        &&& 0 <= e.login < logins.len()
                        &&& login_of(logins, int069a[e.row].Legacy_Banner_ID@) == Some(e.login)
                        &&& logins[e.login].0@ == int069a[e.row].Legacy_Banner_ID@
                        &&& logins[e.login].1@.len() > 0
                    } by {
                        if k < es0.len() {
                            assert(es[k] == es0[k]);
                            assert(int069a[es0[k].row] == pre[es0[k].row]);
                        }
                    }
                    assert forall|k: int, m: int| 0 <= k < m < es.len() implies #[trigger] es[k].row < #[trigger] es[m].row by {
                        if m < es0.len() {
                            assert(es[k] == es0[k] && es[m] == es0[m]);
                        } else {
                            assert(es[k] == es0[k]);
                        }
                    }
                },
                None => {
                    assert forall|k: int| 0 <= k < es.len() implies int069a[#[trigger] es[k].row] == pre[es[k].row] by {}
                },
            }
        } else {
            assert forall|k: int| 0 <= k < es.len() implies int069a[#[trigger] es[k].row] == pre[es[k].row] by {}
        }
    }
}

} // verus!
