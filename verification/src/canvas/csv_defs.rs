//! The rows of Canvas SIS imports (terms, courses, sections, users, enrollments).
//!
//! Each type here is one row kind of a Canvas SIS CSV file; their CSV form (column
//! names in snake case, absent optional columns left out) is produced outside this crate.

use vstd::prelude::*;
use crate::text::str_eq;

verus! {

/// Status of a term or section: active or deleted.
#[derive(Debug, Clone, Copy, PartialEq, Eq, Structural)]
pub enum ADStatus {
    Active,
    Deleted,
}

/// Status of a user: active, suspended or deleted.
#[derive(Debug, Clone, Copy, PartialEq, Eq, Structural)]
pub enum ASDStatus {
    Active,
    Suspended,
    Deleted,
}

/// Status of an enrollment.
#[derive(Debug, Clone, Copy, PartialEq, Eq, Structural)]
pub enum ADCIDStatus {
    Active,
    Deleted,
    Completed,
    Inactive,
    DeletedLastComplete,
}

/// Status of a course.
#[derive(Debug, Clone, Copy, PartialEq, Eq, Structural)]
pub enum ADCPStatus {
    Active,
    Deleted,
    Completed,
    Published,
}

/// How a course is taught.
#[derive(Debug, Clone, Copy, PartialEq, Eq, Structural)]
pub enum CourseFormat {
    OnCampus,
    Online,
    Blended,
}

/// The kind of user a person declares to be.
#[derive(Debug, Clone, Copy, PartialEq, Eq, Structural)]
pub enum DeclaredUserType {
    Administrative,
    Observer,
    Staff,
    Student,
    StudentOther,
    Teacher,
}

/// Whether grades are passed back to the SIS.
#[derive(Debug, Clone, Copy, PartialEq, Eq, Structural)]
pub enum GradePassbackSetting {
    NightlySync,
    NotSet,
}

/// A value that is either set, or marked for deletion with `<delete>`.
#[derive(Debug)]
pub enum SetDelete<T> {
    Value(T),
    Delete,
}

/// The text that marks a value for deletion.
pub open spec fn spec_delete_marker() -> Seq<char> {
    seq!['<', 'd', 'e', 'l', 'e', 't', 'e', '>']
}

/// The text that marks a value for deletion: `<delete>`.
pub fn delete_marker() -> (s: String)
    ensures
        s@ == spec_delete_marker(),
{
    let s = "<delete>".to_owned();
    proof {
        reveal_strlit("<delete>");
        assert("<delete>"@ =~= spec_delete_marker());
    }
    s
}

/// Whether a cell holds the deletion marker rather than a value.
pub fn is_delete_marker(v: &str) -> (r: bool)
    ensures
        r == (v@ == spec_delete_marker()),
{
    proof {
        reveal_strlit("<delete>");
        assert("<delete>"@ =~= spec_delete_marker());
    }
    str_eq(v, "<delete>")
}

/// A Canvas `AccountId` value.
#[derive(Debug)]
pub struct AccountId(pub String);

/// A Canvas `AuthenticationProviderId` value.
#[derive(Debug)]
pub struct AuthenticationProviderId(pub String);

/// A Canvas `BlueprintCourseId` value.
#[derive(Debug)]
pub struct BlueprintCourseId(pub String);

/// A Canvas `CourseId` value.
#[derive(Debug)]
pub struct CourseId(pub String);

/// A Canvas `IntegrationId` value.
#[derive(Debug)]
pub struct IntegrationId(pub String);

/// A Canvas `LoginId` value.
#[derive(Debug)]
pub struct LoginId(pub String);

/// A Canvas `Password` value.
#[derive(Debug)]
pub struct Password(pub String);

/// A Canvas `Role` value.
#[derive(Debug)]
pub struct Role(pub String);

/// A Canvas `RoleId` value.
#[derive(Debug)]
pub struct RoleId(pub String);

/// A Canvas `SectionId` value.
#[derive(Debug)]
pub struct SectionId(pub String);

/// A Canvas `SSHAPassword` value.
#[derive(Debug)]
pub struct SSHAPassword(pub String);

/// A Canvas `TermId` value.
#[derive(Debug)]
pub struct TermId(pub String);

/// A Canvas `UserId` value.
#[derive(Debug)]
pub struct UserId(pub String);

/// A Canvas `UserIntegrationId` value.
#[derive(Debug)]
pub struct UserIntegrationId(pub String);

/// A date and time without time zone, as Canvas reads it (`YYYY-MM-DDTHH:MM:SS`).
#[derive(Debug, Clone, Copy, PartialEq, Eq, Structural)]
pub struct CanvasDateTime {
    pub year: i32,
    pub month: u32,
    pub day: u32,
    pub hour: u32,
    pub minute: u32,
    pub second: u32,
}

/// A course row.
#[derive(Debug)]
pub struct Course {
    pub course_id: CourseId,
    pub short_name: String,
    pub long_name: String,
    pub account_id: Option<AccountId>,
    pub term_id: Option<TermId>,
    pub status: ADCPStatus,
    pub integration_id: Option<IntegrationId>,
    pub start_date: Option<SetDelete<CanvasDateTime>>,
    pub end_date: Option<SetDelete<CanvasDateTime>>,
    pub course_format: Option<CourseFormat>,
    pub blueprint_course_id: Option<BlueprintCourseId>,
    pub grade_passback_setting: Option<GradePassbackSetting>,
    pub homeroom_course: Option<bool>,
    pub friendly_name: Option<String>,
}

/// An enrollment row.
#[derive(Debug)]
pub struct Enrollment {
    pub course_id: Option<CourseId>,
    pub root_account: Option<String>,
    pub start_date: Option<CanvasDateTime>,
    pub end_date: Option<CanvasDateTime>,
    pub user_id: Option<UserId>,
    pub user_integration_id: Option<UserIntegrationId>,
    pub role: Option<Role>,
    pub role_id: Option<RoleId>,
    pub section_id: Option<SectionId>,
    pub status: ADCIDStatus,
    pub associated_user_id: Option<UserId>,
    pub limit_section_privileges: Option<bool>,
    pub notify: Option<bool>,
}

/// A section row.
#[derive(Debug)]
pub struct Section {
    pub section_id: SectionId,
    pub course_id: CourseId,
    pub name: String,
    pub status: ADStatus,
    pub integration_id: Option<IntegrationId>,
    pub start_date: Option<CanvasDateTime>,
    pub end_date: Option<CanvasDateTime>,
}

/// A term row.
#[derive(Debug)]
pub struct Term {
    pub term_id: TermId,
    pub name: String,
    pub status: ADStatus,
    pub integration_id: Option<IntegrationId>,
    pub date_override_enrollment_type: Option<String>,
    pub start_date: Option<CanvasDateTime>,
    pub end_date: Option<CanvasDateTime>,
}

/// A user row.
#[derive(Debug)]
pub struct User {
    pub user_id: UserId,
    pub integration_id: Option<IntegrationId>,
    pub login_id: LoginId,
    pub password: Option<Password>,
    pub ssha_password: Option<SSHAPassword>,
    pub authentication_provider_id: Option<AuthenticationProviderId>,
    pub first_name: Option<String>,
    pub last_name: Option<String>,
    pub full_name: Option<String>,
    pub sortable_name: Option<String>,
    pub short_name: Option<String>,
    pub email: Option<String>,
    pub pronouns: Option<SetDelete<String>>,
    pub declared_user_type: Option<SetDelete<DeclaredUserType>>,
    pub canvas_password_notification: Option<bool>,
    pub home_account: Option<String>,
    pub status: ASDStatus,
}

} // verus!
