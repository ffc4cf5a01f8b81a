//! Domain records for the admissions service, defined as plain data so that
//! the boundary layer can exchange them with the persistence layer, plus the
//! pure record-editing and application-status rules.

use vstd::prelude::*;

verus! {

/// A research field; fields may share names, the id is the identity.
#[derive(Clone, Debug, PartialEq)]
pub struct ResearchField {
    pub id: i32,
    pub name: String,
}

/// A request for a new research field; the id is assigned by the store.
#[derive(Clone, Debug, PartialEq)]
pub struct NewResearchField {
    pub name: String,
}

/// A professor; professors may share names, the id is the identity.
#[derive(Clone, Debug, PartialEq)]
pub struct Professor {
    pub id: i32,
    pub name: String,
}

/// A request for a new professor; the id is assigned by the store.
#[derive(Clone, Debug, PartialEq)]
pub struct NewProfessor {
    pub name: String,
}

/// The relationship between a professor and a field they research.
#[derive(Clone, Copy, Debug, PartialEq, Eq, Structural)]
pub struct ProfessorResearchField {
    pub prof_id: i32,
    pub field_id: i32,
}

/// An uploaded file (cv, diploma, grade audit) stored as an opaque blob.
#[derive(Clone, Debug, PartialEq)]
pub struct ApplicantBlob {
    pub id: i32,
    pub data_blob: Vec<u8>,
}

/// A request to store a new file blob; the id is assigned by the store.
#[derive(Clone, Debug, PartialEq)]
pub struct NewApplicantBlob {
    pub data_blob: Vec<u8>,
}

/// A graduate applicant with contact details, desired research field and
/// optional references to uploaded files.
#[derive(Clone, Debug, PartialEq)]
pub struct Applicant {
    pub id: i32,
    pub desired_field_id: i32,
    pub name: String,
    pub phone_number: String,
    pub email: String,
    pub cv_blob_id: Option<i32>,
    pub diploma_blob_id: Option<i32>,
    pub grade_audit_blob_id: Option<i32>,
}

/// A request for a new applicant; the id is assigned by the store.
#[derive(Clone, Debug, PartialEq)]
pub struct NewApplicant {
    pub name: String,
    pub desired_field_id: i32,
    pub phone_number: String,
    pub email: String,
}

/// A partial edit of an applicant: every `Some` field replaces the stored
/// value, every `None` field leaves it unchanged.
#[derive(Clone, Debug, PartialEq)]
pub struct ApplicantEdit {
    pub name: Option<String>,
    pub desired_field_id: Option<i32>,
    pub phone_number: Option<String>,
    pub email: Option<String>,
}

/// An edit of a professor: the name is replaced.
#[derive(Clone, Debug, PartialEq)]
pub struct ProfessorEdit {
    pub name: String,
}

/// The relationship between an applicant and a professor they applied to,
/// with the application's status.
#[derive(Clone, Debug, PartialEq)]
pub struct StudentAppliedTo {
    pub applicant_id: i32,
    pub prof_id: i32,
    pub status: String,
}

/// Credential record for the administrator login table.
#[derive(Clone, Debug, PartialEq)]
pub struct NewAdminLogin {
    pub username: String,
    pub bcrypt_hash: String,
}

/// Credential record for the applicant login table; `id` is the applicant's
/// id in the applicants table.
#[derive(Clone, Debug, PartialEq)]
pub struct NewApplicantLogin {
    pub id: i32,
    pub username: String,
    pub bcrypt_hash: String,
}

/// Credential record for the professor login table; `id` is the professor's
/// id in the professors table.
#[derive(Clone, Debug, PartialEq)]
pub struct NewProfessorLogin {
    pub id: i32,
    pub username: String,
    pub bcrypt_hash: String,
}

/// Content equality of two string slices, usable wherever usernames or
/// statuses are compared.
pub fn str_eq(a: &str, b: &str) -> (r: bool)
    ensures
        r == (a@ == b@),
{
    let owned_a: String = a.to_owned();
    let owned_b: String = b.to_owned();
    owned_a == owned_b
}

/// Applies a partial edit to an applicant: every `Some` field of the edit
/// replaces the applicant's value, every `None` field leaves it as it was;
/// the id and the file references never change.
pub fn edit_applicant(applicant: &mut Applicant, app_data: ApplicantEdit)
    ensures
        final(applicant).id == old(applicant).id,
        final(applicant).name == (match app_data.name {
            Some(v) => v,
            None => old(applicant).name,
        }),
        final(applicant).email == (match app_data.email {
            Some(v) => v,
            None => old(applicant).email,
        }),
        final(applicant).phone_number == (match app_data.phone_number {
            Some(v) => v,
            None => old(applicant).phone_number,
        }),
        final(applicant).desired_field_id == (match app_data.desired_field_id {
            Some(v) => v,
            None => old(applicant).desired_field_id,
        }),
        final(applicant).cv_blob_id == old(applicant).cv_blob_id,
        final(applicant).diploma_blob_id == old(applicant).diploma_blob_id,
        final(applicant).grade_audit_blob_id == old(applicant).grade_audit_blob_id,
{
    if let Some(v) = app_data.name {
        applicant.name = v;
    }
    if let Some(v) = app_data.email {
        applicant.email = v;
    }
    if let Some(v) = app_data.phone_number {
        applicant.phone_number = v;
    }
    if let Some(v) = app_data.desired_field_id {
        applicant.desired_field_id = v;
    }
}

/// Applies an edit to a professor: the name is replaced, the id is kept.
pub fn edit_professor(professor: &mut Professor, prof_data: ProfessorEdit)
    ensures
        final(professor).id == old(professor).id,
        final(professor).name == prof_data.name,
{
    professor.name = prof_data.name;
}

/// Status of an application a professor has accepted.
pub const APPLICATION_ACCEPTED: &'static str = "ACCEPTED";

/// Status of an application a professor has denied.
pub const APPLICATION_DENIED: &'static str = "DENIED";

/// Status of an application no professor has decided yet.
pub const APPLICATION_PENDING: &'static str = "PENDING";

/// Whether a string names one of the three application statuses.
pub open spec fn spec_is_valid_application_status(status: Seq<char>) -> bool {
    status == APPLICATION_ACCEPTED@ || status == APPLICATION_DENIED@
        || status == APPLICATION_PENDING@
}

/// Validates a status string from a request: exactly the three known
/// application statuses are accepted.
pub fn is_valid_application_status(status: &str) -> (r: bool)
    ensures
        r == spec_is_valid_application_status(status@),
{
    str_eq(status, APPLICATION_ACCEPTED) || str_eq(status, APPLICATION_DENIED) || str_eq(
        status,
        APPLICATION_PENDING,
    )
}

/// Sets an application's status; the applicant and professor ids are kept.
fn set_applicant_application_status(application: &mut StudentAppliedTo, new_status: String)
    ensures
        final(application).applicant_id == old(application).applicant_id,
        final(application).prof_id == old(application).prof_id,
        final(application).status == new_status,
{
    application.status = new_status;
}

/// Accepts an applicant's application to a professor.
pub fn accept_applicant_application(application: &mut StudentAppliedTo)
    ensures
        final(application).applicant_id == old(application).applicant_id,
        final(application).prof_id == old(application).prof_id,
        final(application).status@ == APPLICATION_ACCEPTED@,
{
    set_applicant_application_status(application, APPLICATION_ACCEPTED.to_owned());
}

/// Denies an applicant's application to a professor.
pub fn deny_applicant_application(application: &mut StudentAppliedTo)
    ensures
        final(application).applicant_id == old(application).applicant_id,
        final(application).prof_id == old(application).prof_id,
        final(application).status@ == APPLICATION_DENIED@,
{
    set_applicant_application_status(application, APPLICATION_DENIED.to_owned());
}

/// Outcome of a decision on an application, as reported to the applicant.
#[derive(Clone, Copy, Debug, PartialEq, Eq, Structural)]
pub enum ApplicationStatus {
    Accepted,
    Denied,
}

impl ApplicationStatus {
    /// The word used for this outcome in the notification to the applicant.
    pub fn as_str(&self) -> (r: &'static str)
        ensures
            *self is Accepted ==> r@ == "Accepted"@,
            *self is Denied ==> r@ == "Denied"@,
    {
        match *self {
            ApplicationStatus::Accepted => "Accepted",
            ApplicationStatus::Denied => "Denied",
        }
    }
}

} // verus!
