use canvas_tui::error::{exit_code, ConfigError, FatalError, FetchError, Field};
use canvas_tui::ui::course::{
    api_key_from_field, assignments_from_fields, assignments_url, bearer, courses_from_fields,
    courses_url, get_api_key, get_assignments, get_courses, has_distinct_ids, position_of,
    Assignment, Course,
};
use canvas_tui::ui::window::assignments_named;

fn some(text: &str) -> Option<String> {
    Some(text.to_string())
}

#[test]
fn test_get_courses() {
    let courses = get_courses(
        r#"[{"course_code": "Algorithms", "course_id": "101"},
            {"course_code": "Compilers", "course_id": "202"}]"#,
    );
    assert_eq!(courses.is_ok(), true);
}

#[test]
fn get_courses_reads_names_and_ids_in_order() {
    let courses = get_courses(
        r#"[{"course_code": "Algorithms", "course_id": "101", "term": 3},
            {"course_id": "202", "course_code": "Compilers"}]"#,
    )
    .unwrap();
    assert_eq!(
        courses,
        vec![
            Course::new("Algorithms".to_string(), "101".to_string()),
            Course::new("Compilers".to_string(), "202".to_string()),
        ]
    );
    assert_eq!(courses[0].name(), "Algorithms");
    assert_eq!(courses[0].id(), "101");
    assert_eq!(courses[1].name(), "Compilers");
    assert_eq!(courses[1].id(), "202");
}

#[test]
fn get_courses_of_an_empty_list_is_empty() {
    assert_eq!(get_courses("[]"), Ok(Vec::new()));
}

#[test]
fn get_courses_rejects_what_is_not_json() {
    assert_eq!(get_courses("<html>"), Err(FetchError::InvalidJson));
    assert_eq!(get_courses(""), Err(FetchError::InvalidJson));
    assert_eq!(get_courses("[{\"course_code\": \"A\""), Err(FetchError::InvalidJson));
}

#[test]
fn get_courses_rejects_what_is_not_a_list() {
    assert_eq!(
        get_courses(r#"{"course_code": "Algorithms", "course_id": "101"}"#),
        Err(FetchError::NotAList)
    );
    assert_eq!(get_courses("null"), Err(FetchError::NotAList));
    assert_eq!(get_courses("\"courses\""), Err(FetchError::NotAList));
    assert_eq!(get_courses("17"), Err(FetchError::NotAList));
}

#[test]
fn get_courses_names_the_first_record_that_lacks_a_field() {
    assert_eq!(
        get_courses(r#"[{"course_code": "A", "course_id": "1"}, {"course_id": "2"}, {}]"#),
        Err(FetchError::MissingField { record: 1, field: Field::CourseCode })
    );
    assert_eq!(
        get_courses(r#"[{"course_code": "A"}]"#),
        Err(FetchError::MissingField { record: 0, field: Field::CourseId })
    );
    assert_eq!(
        get_courses(r#"[{"course_code": "A", "course_id": 101}]"#),
        Err(FetchError::MissingField { record: 0, field: Field::CourseId })
    );
    assert_eq!(
        get_courses(r#"[{"course_code": null, "course_id": 101}]"#),
        Err(FetchError::MissingField { record: 0, field: Field::CourseCode })
    );
    assert_eq!(
        get_courses(r#"[["course_code", "course_id"]]"#),
        Err(FetchError::MissingField { record: 0, field: Field::CourseCode })
    );
    assert_eq!(
        get_courses(r#"["course_code"]"#),
        Err(FetchError::MissingField { record: 0, field: Field::CourseCode })
    );
}

#[test]
fn get_courses_rejects_a_repeated_id() {
    assert_eq!(
        get_courses(
            r#"[{"course_code": "A", "course_id": "1"},
                {"course_code": "B", "course_id": "2"},
                {"course_code": "C", "course_id": "1"},
                {"course_code": "D", "course_id": "2"}]"#
        ),
        Err(FetchError::DuplicateId { record: 2 })
    );
}

#[test]
fn get_courses_reports_the_earliest_failure() {
    assert_eq!(
        get_courses(
            r#"[{"course_code": "A", "course_id": "1"},
                {"course_code": "B", "course_id": "1"},
                {"course_code": "C"}]"#
        ),
        Err(FetchError::DuplicateId { record: 1 })
    );
    assert_eq!(
        get_courses(
            r#"[{"course_code": "A", "course_id": "1"},
                {"course_code": "C"},
                {"course_code": "B", "course_id": "1"}]"#
        ),
        Err(FetchError::MissingField { record: 1, field: Field::CourseId })
    );
}

#[test]
fn get_courses_accepts_equal_names() {
    let courses = get_courses(
        r#"[{"course_code": "A", "course_id": "1"}, {"course_code": "A", "course_id": "2"}]"#,
    )
    .unwrap();
    assert_eq!(courses.len(), 2);
    assert!(has_distinct_ids(&courses));
}

#[test]
fn courses_from_fields_builds_or_fails() {
    assert_eq!(
        courses_from_fields(vec![(some("A"), some("1")), (some("B"), some("2"))]),
        Ok(vec![
            Course::new("A".to_string(), "1".to_string()),
            Course::new("B".to_string(), "2".to_string()),
        ])
    );
    assert_eq!(courses_from_fields(Vec::new()), Ok(Vec::new()));
    assert_eq!(
        courses_from_fields(vec![(None, None)]),
        Err(FetchError::MissingField { record: 0, field: Field::CourseCode })
    );
    assert_eq!(
        courses_from_fields(vec![(some("A"), some("1")), (some("B"), None)]),
        Err(FetchError::MissingField { record: 1, field: Field::CourseId })
    );
    assert_eq!(
        courses_from_fields(vec![(some("A"), some("1")), (some("B"), some("1"))]),
        Err(FetchError::DuplicateId { record: 1 })
    );
}

#[test]
fn get_assignments_reads_names_in_order() {
    assert_eq!(
        get_assignments(r#"[{"name": "Essay", "points": 10}, {"name": "Quiz"}, {"name": "Essay"}]"#),
        Ok(vec!["Essay".to_string(), "Quiz".to_string(), "Essay".to_string()])
    );
    assert_eq!(get_assignments("[]"), Ok(Vec::new()));
}

#[test]
fn get_assignments_rejects_malformed_replies() {
    assert_eq!(get_assignments("not json"), Err(FetchError::InvalidJson));
    assert_eq!(get_assignments(r#"{"name": "Essay"}"#), Err(FetchError::NotAList));
    assert_eq!(
        get_assignments(r#"[{"name": "Essay"}, {"title": "Quiz"}, {}]"#),
        Err(FetchError::MissingField { record: 1, field: Field::Name })
    );
    assert_eq!(
        get_assignments(r#"[{"name": 7}]"#),
        Err(FetchError::MissingField { record: 0, field: Field::Name })
    );
}

#[test]
fn assignments_from_fields_takes_names_or_fails() {
    assert_eq!(
        assignments_from_fields(vec![some("Essay"), some("Quiz")]),
        Ok(vec!["Essay".to_string(), "Quiz".to_string()])
    );
    assert_eq!(
        assignments_from_fields(vec![some("Essay"), None, None]),
        Err(FetchError::MissingField { record: 1, field: Field::Name })
    );
}

#[test]
fn assignments_named_keeps_order() {
    let list = assignments_named(&vec!["Essay".to_string(), "Quiz".to_string()]);
    assert_eq!(
        list,
        vec![Assignment::new("Essay".to_string()), Assignment::new("Quiz".to_string())]
    );
    assert_eq!(list[1].name(), "Quiz");
}

#[test]
fn get_api_key_reads_the_key() {
    assert_eq!(get_api_key(r#"{"key": "SECRET-REDACTED"}"#), Ok("SECRET-REDACTED".to_string()));
    assert_eq!(get_api_key(r#"{"other": 1, "key": ""}"#), Ok(String::new()));
}

#[test]
fn get_api_key_rejects_malformed_configuration() {
    assert_eq!(get_api_key("key = abc"), Err(ConfigError::InvalidJson));
    assert_eq!(get_api_key(""), Err(ConfigError::InvalidJson));
    assert_eq!(get_api_key("{}"), Err(ConfigError::MissingKey));
    assert_eq!(get_api_key(r#"{"key": 12}"#), Err(ConfigError::MissingKey));
    assert_eq!(get_api_key(r#"{"Key": "abc"}"#), Err(ConfigError::MissingKey));
    assert_eq!(get_api_key(r#"["key"]"#), Err(ConfigError::MissingKey));
}

#[test]
fn api_key_from_field_needs_a_text() {
    assert_eq!(api_key_from_field(some("abc")), Ok("abc".to_string()));
    assert_eq!(api_key_from_field(None), Err(ConfigError::MissingKey));
}

#[test]
fn urls_and_header_are_built_from_their_parts() {
    assert_eq!(courses_url(), "https://canvas.instructure.com/api/v1/courses");
    assert_eq!(
        assignments_url("101"),
        "https://canvas.instructure.com/api/v1/courses/101/assignments"
    );
    assert_eq!(assignments_url(""), "https://canvas.instructure.com/api/v1/courses//assignments");
    assert_eq!(bearer("abc"), "Bearer abc");
}

#[test]
fn distinct_ids_are_told_from_repeated_ones() {
    let a = Course::new("A".to_string(), "1".to_string());
    let b = Course::new("B".to_string(), "2".to_string());
    let c = Course::new("C".to_string(), "1".to_string());
    assert!(has_distinct_ids(&Vec::new()));
    assert!(has_distinct_ids(&vec![a.clone()]));
    assert!(has_distinct_ids(&vec![a.clone(), b.clone()]));
    assert!(!has_distinct_ids(&vec![a.clone(), b.clone(), c.clone()]));
    assert!(!has_distinct_ids(&vec![a.clone(), a.clone()]));
    assert_eq!(position_of(&vec![a.clone(), b.clone(), c.clone()], "1"), Some(0));
    assert_eq!(position_of(&vec![a.clone(), b.clone(), c.clone()], "2"), Some(1));
    assert_eq!(position_of(&vec![a, b, c], "3"), None);
}

#[test]
fn course_has_its_id() {
    let a = Course::new("A".to_string(), "1".to_string());
    assert!(a.has_id(&"1".to_string()));
    assert!(!a.has_id(&"A".to_string()));
    assert_eq!(a.clone(), a);
}

#[test]
fn status_codes_are_classified() {
    assert_eq!(FetchError::from_status(200), None);
    assert_eq!(FetchError::from_status(204), None);
    assert_eq!(FetchError::from_status(299), None);
    assert_eq!(FetchError::from_status(401), Some(FetchError::Authentication));
    assert_eq!(FetchError::from_status(403), Some(FetchError::Authentication));
    assert_eq!(FetchError::from_status(199), Some(FetchError::Network));
    assert_eq!(FetchError::from_status(300), Some(FetchError::Network));
    assert_eq!(FetchError::from_status(404), Some(FetchError::Network));
    assert_eq!(FetchError::from_status(500), Some(FetchError::Network));
    assert_eq!(FetchError::from_status(0), Some(FetchError::Network));
}

#[test]
fn every_failure_has_its_message() {
    assert_eq!(FetchError::Network.message(), "could not reach the course service");
    assert_eq!(FetchError::TimedOut.message(), "the course service did not answer in time");
    assert_eq!(FetchError::Authentication.message(), "the course service rejected the API key");
    assert_eq!(
        FetchError::InvalidJson.message(),
        "the course service sent a reply that is not JSON"
    );
    assert_eq!(FetchError::NotAList.message(), "the course service sent a reply that is not a list");
    assert_eq!(
        FetchError::MissingField { record: 4, field: Field::CourseCode }.message(),
        "a course in the reply has no course_code"
    );
    assert_eq!(
        FetchError::MissingField { record: 0, field: Field::CourseId }.message(),
        "a course in the reply has no course_id"
    );
    assert_eq!(
        FetchError::MissingField { record: 0, field: Field::Name }.message(),
        "an assignment in the reply has no name"
    );
    assert_eq!(
        FetchError::DuplicateId { record: 1 }.message(),
        "two courses in the reply share an id"
    );
    assert_eq!(ConfigError::Missing.message(), "config.json could not be read");
    assert_eq!(ConfigError::InvalidJson.message(), "config.json is not JSON");
    assert_eq!(ConfigError::MissingKey.message(), "config.json holds no API key");
    assert_eq!(FatalError::Terminal.message(), "the terminal could not be used");
    assert_eq!(
        FatalError::Config(ConfigError::Missing).message(),
        "config.json could not be read"
    );
}

#[test]
fn failed_initial_fetch_ends_with_a_message_and_a_nonzero_code() {
    let fetched = get_courses("Service Unavailable");
    let failure = match fetched {
        Ok(_) => panic!("the reply is no course list"),
        Err(e) => FatalError::Fetch(e),
    };
    assert_eq!(failure, FatalError::Fetch(FetchError::InvalidJson));
    assert_eq!(failure.message(), "the course service sent a reply that is not JSON");
    assert_ne!(exit_code(Err(failure)), 0);
    assert_eq!(exit_code(Err(FatalError::Fetch(FetchError::Network))), 1);
    assert_eq!(exit_code(Err(FatalError::Config(ConfigError::MissingKey))), 1);
    assert_eq!(exit_code(Err(FatalError::Terminal)), 1);
    assert_eq!(exit_code(Ok(())), 0);
}
