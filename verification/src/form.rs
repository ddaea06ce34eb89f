//! The two submitted forms and their validation into typed requests.
//!
//! A required field of the tuition form counts as provided when it is present
//! and not empty; a text of white space is a text like any other there. The
//! two names of the lookup form must moreover not be blank. The fields are
//! examined in a fixed order and the first one that fails decides the error.
//!
//! Two choices are made on purpose and are visible in the contracts. An
//! unknown residency counts as non-resident. The study level is graduate only
//! for the text `nonresident`; every other text, `graduate` among them, gives
//! undergraduate.

use vstd::prelude::*;
use vstd::string::*;
use crate::text::{is_blank, small_number, text_is_blank, parse_small_number};

verus! {

/// The fields of the tuition form as they were submitted. A field that the
/// form did not send is `None`.
#[derive(Debug, Clone, PartialEq, Eq)]
pub struct CalculateTuitionFormParams {
    pub first_name: Option<String>,
    pub last_name: Option<String>,
    pub num_credits: Option<String>,
    pub new_student: Option<String>,
    pub orientation: Option<String>,
    pub student_type: Option<String>,
    pub student_studies: Option<String>,
}

/// The fields of the lookup form as they were submitted.
#[derive(Debug, Clone, PartialEq, Eq)]
pub struct LookupFormParams {
    pub first_name: Option<String>,
    pub last_name: Option<String>,
}

/// A lookup request whose two names are known to be provided.
#[allow(non_snake_case)]
#[derive(Debug, Clone, PartialEq, Eq)]
pub struct TypeSafeLookupFormParams {
    pub firstName: String,
    pub lastName: String,
}

#[derive(Debug, Clone, Copy, PartialEq, Eq, Structural)]
pub enum StudentResidency {
    In,
    Out,
}

#[derive(Debug, Clone, Copy, PartialEq, Eq, Structural)]
pub enum StudentStudies {
    Undergraduate,
    Graduate,
}

/// A tuition request with every field checked and typed.
#[derive(Debug, Clone, PartialEq, Eq)]
pub struct TypeSafeParameters {
    pub first_name: String,
    pub last_name: String,
    pub num_credits: u8,
    pub new_student: bool,
    pub orientation: bool,
    pub student_type: StudentResidency,
    pub student_studies: StudentStudies,
}

/// Why a form was turned down.
#[derive(Debug, Clone, Copy, PartialEq, Eq, Structural)]
pub enum ValidationError {
    /// The lookup form has no first name.
    LookupFirstName,
    /// The lookup form has no last name.
    LookupLastName,
    /// The tuition form has no first name.
    FirstName,
    /// The tuition form has no last name.
    LastName,
    /// The tuition form has no number of credits.
    Credits,
    /// The number of credits is not an unsigned number of at most 255.
    CreditsNotANumber,
    /// The tuition form has no residency.
    Residency,
    /// The tuition form has no study level.
    Studies,
}

/// The tuition form as a mathematical value.
pub struct CalculateForm {
    pub first_name: Option<Seq<char>>,
    pub last_name: Option<Seq<char>>,
    pub num_credits: Option<Seq<char>>,
    pub new_student: Option<Seq<char>>,
    pub orientation: Option<Seq<char>>,
    pub student_type: Option<Seq<char>>,
    pub student_studies: Option<Seq<char>>,
}

/// The lookup form as a mathematical value.
pub struct LookupForm {
    pub first_name: Option<Seq<char>>,
    pub last_name: Option<Seq<char>>,
}

/// A validated lookup request as a mathematical value.
pub struct LookupRequest {
    pub first_name: Seq<char>,
    pub last_name: Seq<char>,
}

/// A validated tuition request as a mathematical value.
pub struct TuitionRequest {
    pub first_name: Seq<char>,
    pub last_name: Seq<char>,
    pub num_credits: u8,
    pub new_student: bool,
    pub orientation: bool,
    pub residency: StudentResidency,
    pub studies: StudentStudies,
}

pub open spec fn field_text(f: Option<String>) -> Option<Seq<char>> {
    match f {
        Some(s) => Some(s@),
        None => None,
    }
}

impl View for CalculateTuitionFormParams {
    type V = CalculateForm;

    open spec fn view(&self) -> CalculateForm {
        CalculateForm {
            first_name: field_text(self.first_name),
            last_name: field_text(self.last_name),
            num_credits: field_text(self.num_credits),
            new_student: field_text(self.new_student),
            orientation: field_text(self.orientation),
            student_type: field_text(self.student_type),
            student_studies: field_text(self.student_studies),
        }
    }
}

impl View for LookupFormParams {
    type V = LookupForm;

    open spec fn view(&self) -> LookupForm {
        LookupForm {
            first_name: field_text(self.first_name),
            last_name: field_text(self.last_name),
        }
    }
}

impl View for TypeSafeLookupFormParams {
    type V = LookupRequest;

    open spec fn view(&self) -> LookupRequest {
        LookupRequest { first_name: self.firstName@, last_name: self.lastName@ }
    }
}

impl View for TypeSafeParameters {
    type V = TuitionRequest;

    open spec fn view(&self) -> TuitionRequest {
        TuitionRequest {
            first_name: self.first_name@,
            last_name: self.last_name@,
            num_credits: self.num_credits,
            new_student: self.new_student,
            orientation: self.orientation,
            residency: self.student_type,
            studies: self.student_studies,
        }
    }
}

/// A required field of the tuition form is provided when it is present and
/// not empty.
pub open spec fn provided(f: Option<Seq<char>>) -> bool {
    f is Some && f->0.len() > 0
}

/// A name of the lookup form is provided when it is present and something is
/// left of it after trimming.
pub open spec fn named(f: Option<Seq<char>>) -> bool {
    f is Some && !is_blank(f->0)
}

/// A checkbox is checked exactly when its field is the text `on`.
pub open spec fn checked(f: Option<Seq<char>>) -> bool {
    f == Some("on"@)
}

/// The residency that a provided text selects: `resident` is resident, every
/// other text is non-resident.
pub open spec fn residency_of(s: Seq<char>) -> StudentResidency {
    if s == "resident"@ {
        StudentResidency::In
    } else {
        StudentResidency::Out
    }
}

/// The study level that a provided text selects: `undergraduate` is
/// undergraduate, `nonresident` is graduate, every other text is
/// undergraduate.
pub open spec fn studies_of(s: Seq<char>) -> StudentStudies {
    if s == "undergraduate"@ {
        StudentStudies::Undergraduate
    } else if s == "nonresident"@ {
        StudentStudies::Graduate
    } else {
        StudentStudies::Undergraduate
    }
}

/// What validating a lookup form gives.
pub open spec fn lookup_request(f: LookupForm) -> Result<LookupRequest, ValidationError> {
    if !named(f.first_name) {
        Err(ValidationError::LookupFirstName)
    } else if !named(f.last_name) {
        Err(ValidationError::LookupLastName)
    } else {
        Ok(LookupRequest { first_name: f.first_name->0, last_name: f.last_name->0 })
    }
}

/// What validating a tuition form gives.
pub open spec fn tuition_request(f: CalculateForm) -> Result<TuitionRequest, ValidationError> {
    if !provided(f.first_name) {
        Err(ValidationError::FirstName)
    } else if !provided(f.last_name) {
        Err(ValidationError::LastName)
    } else if !provided(f.num_credits) {
        Err(ValidationError::Credits)
    } else if small_number(f.num_credits->0) is None {
        Err(ValidationError::CreditsNotANumber)
    } else if !provided(f.student_type) {
        Err(ValidationError::Residency)
    } else if !provided(f.student_studies) {
        Err(ValidationError::Studies)
    } else {
        Ok(
            TuitionRequest {
                first_name: f.first_name->0,
                last_name: f.last_name->0,
                num_credits: small_number(f.num_credits->0)->0,
                new_student: checked(f.new_student),
                orientation: checked(f.orientation),
                residency: residency_of(f.student_type->0),
                studies: studies_of(f.student_studies->0),
            },
        )
    }
}

/// The result of a validation as a mathematical value.
pub open spec fn lookup_outcome(r: Result<TypeSafeLookupFormParams, ValidationError>) -> Result<
    LookupRequest,
    ValidationError,
> {
    match r {
        Ok(p) => Ok(p@),
        Err(e) => Err(e),
    }
}

/// The result of a validation as a mathematical value.
pub open spec fn tuition_outcome(r: Result<TypeSafeParameters, ValidationError>) -> Result<
    TuitionRequest,
    ValidationError,
> {
    match r {
        Ok(p) => Ok(p@),
        Err(e) => Err(e),
    }
}

/// The text of a required field of the tuition form, or `None` where it is
/// absent or empty.
pub fn required_field(f: &Option<String>) -> (r: Option<String>)
    ensures
        r is Some == provided(field_text(*f)),
        r is Some ==> r->0@ == (*f)->0@,
{
    match f {
        Some(s) => {
            if s.as_str().unicode_len() == 0 {
                None
            } else {
                Some(s.clone())
            }
        },
        None => None,
    }
}

/// A name of the lookup form, or `None` where it is absent or blank.
pub fn required_name(f: &Option<String>) -> (r: Option<String>)
    ensures
        r is Some == named(field_text(*f)),
        r is Some ==> r->0@ == (*f)->0@,
{
    match f {
        Some(s) => {
            if text_is_blank(s.as_str()) {
                None
            } else {
                Some(s.clone())
            }
        },
        None => None,
    }
}

/// Whether a field holds exactly the given text.
pub fn field_is(f: &Option<String>, expected: &str) -> (b: bool)
    ensures
        b == (field_text(*f) == Some(expected@)),
{
    match f {
        Some(s) => {
            let e: String = String::from_str(expected);
            *s == e
        },
        None => false,
    }
}

pub fn parse_residency(s: &String) -> (r: StudentResidency)
    ensures
        r == residency_of(s@),
{
    let resident: String = String::from_str("resident");
    if *s == resident {
        StudentResidency::In
    } else {
        StudentResidency::Out
    }
}

pub fn parse_studies(s: &String) -> (r: StudentStudies)
    ensures
        r == studies_of(s@),
{
    let undergraduate: String = String::from_str("undergraduate");
    let nonresident: String = String::from_str("nonresident");
    if *s == undergraduate {
        StudentStudies::Undergraduate
    } else if *s == nonresident {
        StudentStudies::Graduate
    } else {
        StudentStudies::Undergraduate
    }
}

/// The text by which the rates table names a residency.
pub open spec fn residency_key_text(r: StudentResidency) -> Seq<char> {
    match r {
        StudentResidency::In => "resident"@,
        StudentResidency::Out => "nonresident"@,
    }
}

/// The text by which the rates table names a study level.
pub open spec fn studies_key_text(s: StudentStudies) -> Seq<char> {
    match s {
        StudentStudies::Undergraduate => "undergraduate"@,
        StudentStudies::Graduate => "graduate"@,
    }
}

impl StudentResidency {
    /// The key of this residency in the rates table.
    pub fn key(&self) -> (s: &'static str)
        ensures
            s@ == residency_key_text(*self),
    {
        match self {
            StudentResidency::In => "resident",
            StudentResidency::Out => "nonresident",
        }
    }
}

impl StudentStudies {
    /// The key of this study level in the rates table.
    pub fn key(&self) -> (s: &'static str)
        ensures
            s@ == studies_key_text(*self),
    {
        match self {
            StudentStudies::Undergraduate => "undergraduate",
            StudentStudies::Graduate => "graduate",
        }
    }
}

/// The key of a residency is a text that selects that residency.
pub proof fn lemma_residency_key_selects(r: StudentResidency)
    ensures
        residency_of(residency_key_text(r)) == r,
{
    reveal_strlit("nonresident");
    reveal_strlit("resident");
    assert("nonresident"@.len() != "resident"@.len());
}

impl LookupFormParams {
    /// Checks that both names are provided and keeps them as they were
    /// submitted.
    pub fn validate(&self) -> (r: Result<TypeSafeLookupFormParams, ValidationError>)
        ensures
            lookup_outcome(r) == lookup_request(self@),
    {
        let first = match required_name(&self.first_name) {
            Some(s) => s,
            None => {
                return Err(ValidationError::LookupFirstName);
            },
        };
        let last = match required_name(&self.last_name) {
            Some(s) => s,
            None => {
                return Err(ValidationError::LookupLastName);
            },
        };
        Ok(TypeSafeLookupFormParams { firstName: first, lastName: last })
    }
}

impl CalculateTuitionFormParams {
    /// Checks the required fields in order, reads the number of credits and
    /// the two checkboxes, and selects residency and study level.
    pub fn validate(&self) -> (r: Result<TypeSafeParameters, ValidationError>)
        ensures
            tuition_outcome(r) == tuition_request(self@),
    {
        let first = match required_field(&self.first_name) {
            Some(s) => s,
            None => {
                return Err(ValidationError::FirstName);
            },
        };
        let last = match required_field(&self.last_name) {
            Some(s) => s,
            None => {
                return Err(ValidationError::LastName);
            },
        };
        let credits_text = match required_field(&self.num_credits) {
            Some(s) => s,
            None => {
                return Err(ValidationError::Credits);
            },
        };
        let credits: u8 = match parse_small_number(credits_text.as_str()) {
            Some(n) => n,
            None => {
                return Err(ValidationError::CreditsNotANumber);
            },
        };
        let new_student = field_is(&self.new_student, "on");
        let orientation = field_is(&self.orientation, "on");
        let residency = match required_field(&self.student_type) {
            Some(s) => parse_residency(&s),
            None => {
                return Err(ValidationError::Residency);
            },
        };
        let studies = match required_field(&self.student_studies) {
            Some(s) => parse_studies(&s),
            None => {
                return Err(ValidationError::Studies);
            },
        };
        Ok(
            TypeSafeParameters {
                first_name: first,
                last_name: last,
                num_credits: credits,
                new_student,
                orientation,
                student_type: residency,
                student_studies: studies,
            },
        )
    }
}

impl ValidationError {
    /// The diagnostic that is written for the operator.
    pub open spec fn message_text(self) -> Seq<char> {
        match self {
            ValidationError::LookupFirstName => "First name not provided"@,
            ValidationError::LookupLastName => "Last name not provided"@,
            ValidationError::FirstName => "No first name was provided!"@,
            ValidationError::LastName => "No last name was provided!"@,
            ValidationError::Credits => "No credits were provided!"@,
            ValidationError::CreditsNotANumber => "The number of credits must be a whole number from 0 to 255."@,
            ValidationError::Residency => "User must be either a nonresident or resident."@,
            ValidationError::Studies => "User must be either a undergraduate or graduate."@,
        }
    }

    pub fn message(&self) -> (s: String)
        ensures
            s@ == self.message_text(),
    {
        match self {
            ValidationError::LookupFirstName => String::from_str("First name not provided"),
            ValidationError::LookupLastName => String::from_str("Last name not provided"),
            ValidationError::FirstName => String::from_str("No first name was provided!"),
            ValidationError::LastName => String::from_str("No last name was provided!"),
            ValidationError::Credits => String::from_str("No credits were provided!"),
            ValidationError::CreditsNotANumber => String::from_str(
                "The number of credits must be a whole number from 0 to 255.",
            ),
            ValidationError::Residency => String::from_str(
                "User must be either a nonresident or resident.",
            ),
            ValidationError::Studies => String::from_str(
                "User must be either a undergraduate or graduate.",
            ),
        }
    }
}

/// An unknown residency text selects what `nonresident` selects.
pub proof fn lemma_unknown_residency_is_nonresident(s: Seq<char>)
    requires
        s != "resident"@,
    ensures
        residency_of(s) == residency_of("nonresident"@),
        residency_of(s) == StudentResidency::Out,
{
    reveal_strlit("nonresident");
    reveal_strlit("resident");
    assert("nonresident"@.len() != "resident"@.len());
}

/// Two tuition forms that differ only in a residency text other than
/// `resident`, a text of white space among them, validate to the same result.
pub proof fn lemma_unrecognized_residency_as_nonresident(f: CalculateForm, s: Seq<char>)
    requires
        s.len() > 0,
        s != "resident"@,
    ensures
        tuition_request(CalculateForm { student_type: Some(s), ..f }) == tuition_request(
            CalculateForm { student_type: Some("nonresident"@), ..f },
        ),
{
    reveal_strlit("nonresident");
    reveal_strlit("resident");
    assert("nonresident"@ != "resident"@) by {
        assert("nonresident"@.len() != "resident"@.len());
    }
}

/// A checkbox that is absent, or holds anything but `on`, is not checked, and
/// the validated request says so.
pub proof fn lemma_checkbox_defaults_to_false(f: CalculateForm)
    requires
        f.new_student != Some("on"@),
        tuition_request(f) is Ok,
    ensures
        !checked(f.new_student),
        !(tuition_request(f)->Ok_0).new_student,
{
}

/// A text other than `undergraduate` and `nonresident` selects the
/// undergraduate level, the text `graduate` among them.
pub proof fn lemma_other_studies_are_undergraduate(f: CalculateForm, s: Seq<char>)
    requires
        s.len() > 0,
        s != "nonresident"@,
    ensures
        tuition_request(CalculateForm { student_studies: Some(s), ..f }) == tuition_request(
            CalculateForm { student_studies: Some("undergraduate"@), ..f },
        ),
        studies_of("graduate"@) == StudentStudies::Undergraduate,
{
    reveal_strlit("undergraduate");
    reveal_strlit("nonresident");
    reveal_strlit("graduate");
    assert("graduate"@.len() != "nonresident"@.len());
    assert("graduate"@.len() != "undergraduate"@.len());
}

/// A tuition form is turned down exactly when one of its five required fields
/// is absent or empty or its number of credits is no number from 0 to 255.
pub proof fn lemma_accepted_forms(f: CalculateForm)
    ensures
        tuition_request(f) is Ok <==> provided(f.first_name) && provided(f.last_name) && provided(
            f.num_credits,
        ) && small_number(f.num_credits->0) is Some && provided(f.student_type) && provided(
            f.student_studies,
        ),
{
}

/// A tuition form without a first name is turned down, whatever else it
/// holds; so is one whose number of credits is not a number.
pub proof fn lemma_rejected_forms(f: CalculateForm)
    ensures
        f.first_name is None ==> tuition_request(f) == Err::<TuitionRequest, _>(
            ValidationError::FirstName,
        ),
        provided(f.first_name) && provided(f.last_name) && provided(f.num_credits) && small_number(
            f.num_credits->0,
        ) is None ==> tuition_request(f) == Err::<TuitionRequest, _>(
            ValidationError::CreditsNotANumber,
        ),
{
}

} // verus!
