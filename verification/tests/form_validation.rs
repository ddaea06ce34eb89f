use tuition_calculator::form::{
    CalculateTuitionFormParams, LookupFormParams, StudentResidency, StudentStudies,
    TypeSafeLookupFormParams, ValidationError,
};

fn some(s: &str) -> Option<String> {
    Some(s.to_string())
}

fn full_form() -> CalculateTuitionFormParams {
    CalculateTuitionFormParams {
        first_name: some("Ada"),
        last_name: some("Lovelace"),
        num_credits: some("12"),
        new_student: some("on"),
        orientation: None,
        student_type: some("resident"),
        student_studies: some("undergraduate"),
    }
}

#[test]
fn valid_form_is_typed() {
    let p = full_form().validate().unwrap();
    assert_eq!(p.first_name, "Ada");
    assert_eq!(p.last_name, "Lovelace");
    assert_eq!(p.num_credits, 12);
    assert!(p.new_student);
    assert!(!p.orientation);
    assert_eq!(p.student_type, StudentResidency::In);
    assert_eq!(p.student_studies, StudentStudies::Undergraduate);
}

#[test]
fn missing_first_name_is_rejected() {
    let mut f = full_form();
    f.first_name = None;
    assert_eq!(f.validate().unwrap_err(), ValidationError::FirstName);
}

#[test]
fn each_missing_field_has_its_error() {
    let mut f = full_form();
    f.last_name = None;
    assert_eq!(f.validate().unwrap_err(), ValidationError::LastName);
    let mut f = full_form();
    f.num_credits = None;
    assert_eq!(f.validate().unwrap_err(), ValidationError::Credits);
    let mut f = full_form();
    f.student_type = None;
    assert_eq!(f.validate().unwrap_err(), ValidationError::Residency);
    let mut f = full_form();
    f.student_studies = None;
    assert_eq!(f.validate().unwrap_err(), ValidationError::Studies);
}

#[test]
fn first_failing_field_decides() {
    let f = CalculateTuitionFormParams {
        first_name: None,
        last_name: None,
        num_credits: some("abc"),
        new_student: None,
        orientation: None,
        student_type: None,
        student_studies: None,
    };
    assert_eq!(f.validate().unwrap_err(), ValidationError::FirstName);
    let mut f = full_form();
    f.num_credits = some("abc");
    f.student_type = None;
    assert_eq!(f.validate().unwrap_err(), ValidationError::CreditsNotANumber);
    let mut f = full_form();
    f.student_type = None;
    f.student_studies = None;
    assert_eq!(f.validate().unwrap_err(), ValidationError::Residency);
}

#[test]
fn empty_fields_count_as_missing() {
    let mut f = full_form();
    f.first_name = some("");
    assert_eq!(f.validate().unwrap_err(), ValidationError::FirstName);
    let mut f = full_form();
    f.last_name = some("");
    assert_eq!(f.validate().unwrap_err(), ValidationError::LastName);
    let mut f = full_form();
    f.num_credits = some("");
    assert_eq!(f.validate().unwrap_err(), ValidationError::Credits);
    let mut f = full_form();
    f.student_type = some("");
    assert_eq!(f.validate().unwrap_err(), ValidationError::Residency);
    let mut f = full_form();
    f.student_studies = some("");
    assert_eq!(f.validate().unwrap_err(), ValidationError::Studies);
}

#[test]
fn white_space_is_a_text_like_any_other_in_the_tuition_form() {
    let mut f = full_form();
    f.first_name = some(" ");
    f.last_name = some("  \t\u{3000}");
    f.student_type = some(" ");
    f.student_studies = some("\n");
    let p = f.validate().unwrap();
    assert_eq!(p.first_name, " ");
    assert_eq!(p.last_name, "  \t\u{3000}");
    assert_eq!(p.student_type, StudentResidency::Out);
    assert_eq!(p.student_studies, StudentStudies::Undergraduate);
    let mut f = full_form();
    f.num_credits = some(" ");
    assert_eq!(f.validate().unwrap_err(), ValidationError::CreditsNotANumber);
}

#[test]
fn blank_lookup_names_count_as_missing() {
    let f = LookupFormParams { first_name: some(" \t"), last_name: None };
    assert_eq!(f.validate().unwrap_err(), ValidationError::LookupFirstName);
    let f = LookupFormParams { first_name: some("Ada"), last_name: some("\u{a0} ") };
    assert_eq!(f.validate().unwrap_err(), ValidationError::LookupLastName);
}

#[test]
fn names_are_kept_as_submitted() {
    let mut f = full_form();
    f.first_name = some(" Ada ");
    let p = f.validate().unwrap();
    assert_eq!(p.first_name, " Ada ");
}

#[test]
fn malformed_credits_are_an_error_not_a_crash() {
    for bad in ["abc", "12a", "-1", "-0", "256", "1000", "99999999999999999999999", "+", "1 2", " 12", "12 ", "1.5", "٣"] {
        let mut f = full_form();
        f.num_credits = some(bad);
        assert_eq!(f.validate().unwrap_err(), ValidationError::CreditsNotANumber, "{:?}", bad);
    }
}

#[test]
fn credits_in_range_are_read() {
    for (text, value) in [("0", 0u8), ("255", 255), ("+7", 7), ("007", 7), ("000000255", 255), ("+0", 0), ("12", 12)] {
        let mut f = full_form();
        f.num_credits = some(text);
        assert_eq!(f.validate().unwrap().num_credits, value, "{:?}", text);
    }
}

#[test]
fn checkbox_is_true_only_for_on() {
    for (value, expected) in [
        (None, false),
        (some("on"), true),
        (some("off"), false),
        (some("ON"), false),
        (some("on "), false),
        (some(""), false),
        (some("true"), false),
        (some("1"), false),
    ] {
        let mut f = full_form();
        f.new_student = value.clone();
        f.orientation = value.clone();
        let p = f.validate().unwrap();
        assert_eq!(p.new_student, expected, "{:?}", value);
        assert_eq!(p.orientation, expected, "{:?}", value);
    }
}

#[test]
fn checkboxes_are_independent() {
    let mut f = full_form();
    f.new_student = None;
    f.orientation = some("on");
    let p = f.validate().unwrap();
    assert!(!p.new_student);
    assert!(p.orientation);
}

#[test]
fn unrecognized_residency_is_nonresident() {
    let mut a = full_form();
    a.student_type = some("unrecognized");
    let mut b = full_form();
    b.student_type = some("nonresident");
    assert_eq!(a.validate().unwrap(), b.validate().unwrap());
    assert_eq!(a.validate().unwrap().student_type, StudentResidency::Out);
    let mut c = full_form();
    c.student_type = some("Resident");
    assert_eq!(c.validate().unwrap().student_type, StudentResidency::Out);
}

#[test]
fn study_level_follows_the_documented_branches() {
    let mut f = full_form();
    f.student_studies = some("undergraduate");
    assert_eq!(f.validate().unwrap().student_studies, StudentStudies::Undergraduate);
    // The text "graduate" does not select the graduate level.
    f.student_studies = some("graduate");
    assert_eq!(f.validate().unwrap().student_studies, StudentStudies::Undergraduate);
    f.student_studies = some("nonresident");
    assert_eq!(f.validate().unwrap().student_studies, StudentStudies::Graduate);
    f.student_studies = some("anything");
    assert_eq!(f.validate().unwrap().student_studies, StudentStudies::Undergraduate);
}

#[test]
fn lookup_needs_both_names() {
    let f = LookupFormParams { first_name: some("Ada"), last_name: None };
    assert_eq!(f.validate().unwrap_err(), ValidationError::LookupLastName);
    let f = LookupFormParams { first_name: None, last_name: None };
    assert_eq!(f.validate().unwrap_err(), ValidationError::LookupFirstName);
    let f = LookupFormParams { first_name: some("  "), last_name: some("Lovelace") };
    assert_eq!(f.validate().unwrap_err(), ValidationError::LookupFirstName);
    let f = LookupFormParams { first_name: some("Ada"), last_name: some("") };
    assert_eq!(f.validate().unwrap_err(), ValidationError::LookupLastName);
}

#[test]
fn lookup_keeps_the_names() {
    let f = LookupFormParams { first_name: some("Ada"), last_name: some("Lovelace") };
    assert_eq!(
        f.validate().unwrap(),
        TypeSafeLookupFormParams { firstName: "Ada".to_string(), lastName: "Lovelace".to_string() }
    );
}

#[test]
fn validation_messages() {
    assert_eq!(ValidationError::LookupFirstName.message(), "First name not provided");
    assert_eq!(ValidationError::LookupLastName.message(), "Last name not provided");
    assert_eq!(ValidationError::FirstName.message(), "No first name was provided!");
    assert_eq!(ValidationError::LastName.message(), "No last name was provided!");
    assert_eq!(ValidationError::Credits.message(), "No credits were provided!");
    assert_eq!(
        ValidationError::CreditsNotANumber.message(),
        "The number of credits must be a whole number from 0 to 255."
    );
    assert_eq!(
        ValidationError::Residency.message(),
        "User must be either a nonresident or resident."
    );
    assert_eq!(
        ValidationError::Studies.message(),
        "User must be either a undergraduate or graduate."
    );
}

#[test]
fn rate_table_keys() {
    assert_eq!(StudentResidency::In.key(), "resident");
    assert_eq!(StudentResidency::Out.key(), "nonresident");
    assert_eq!(StudentStudies::Undergraduate.key(), "undergraduate");
    assert_eq!(StudentStudies::Graduate.key(), "graduate");
}
