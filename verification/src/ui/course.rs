//! Courses and assignments as the dashboard holds them.

use crate::error::{ConfigError, FetchError, Field};
use crate::json::{self, json_of, json_parsed, Json};
use serde_json::Value;
use vstd::prelude::*;

verus! {

/// What a [`Course`] is, as far as contracts are concerned.
pub struct CourseView {
    pub name: Seq<char>,
    pub id: Seq<char>,
}

/// A unit of enrollment: a stable id and a display name. Immutable once built.
#[derive(Debug, PartialEq, Eq)]
pub struct Course {
    name: String,
    id: String,
}

impl View for Course {
    type V = CourseView;

    closed spec fn view(&self) -> CourseView {
        CourseView { name: self.name@, id: self.id@ }
    }
}

impl Clone for Course {
    fn clone(&self) -> (c: Course)
        ensures
            c@ == self@,
    {
        Course { name: self.name.clone(), id: self.id.clone() }
    }
}

impl Course {
    /// The course with display name `name` and id `id`.
    pub fn new(name: String, id: String) -> (c: Course)
        ensures
            c@ == (CourseView { name: name@, id: id@ }),
    {
        Course { name, id }
    }

    /// The display name.
    pub fn name(&self) -> (s: String)
        ensures
            s@ == self@.name,
    {
        self.name.clone()
    }

    /// The id by which the service knows the course.
    pub fn id(&self) -> (s: String)
        ensures
            s@ == self@.id,
    {
        self.id.clone()
    }

    /// Whether the course has the id `id`.
    pub fn has_id(&self, id: &String) -> (b: bool)
        ensures
            b == (self@.id == id@),
    {
        self.id == *id
    }
}

/// A gradable unit of work of a course, known by its name alone.
#[derive(Debug, PartialEq, Eq)]
pub struct Assignment {
    name: String,
}

impl View for Assignment {
    type V = Seq<char>;

    closed spec fn view(&self) -> Seq<char> {
        self.name@
    }
}

impl Clone for Assignment {
    fn clone(&self) -> (a: Assignment)
        ensures
            a@ == self@,
    {
        Assignment { name: self.name.clone() }
    }
}

impl Assignment {
    /// The assignment called `name`.
    pub fn new(name: String) -> (a: Assignment)
        ensures
            a@ == name@,
    {
        Assignment { name }
    }

    /// The name of the assignment.
    pub fn name(&self) -> (s: String)
        ensures
            s@ == self@,
    {
        self.name.clone()
    }
}

/// No two courses of `courses` share an id.
pub open spec fn distinct_ids(courses: Seq<CourseView>) -> bool {
    forall|i: int, j: int| 0 <= i < j < courses.len() ==> courses[i].id != courses[j].id
}

/// The views of the courses of a vector, in order.
pub open spec fn course_views(courses: Seq<Course>) -> Seq<CourseView> {
    courses.map_values(|c: Course| c@)
}

/// Whether the ids of `courses` are pairwise different.
pub fn has_distinct_ids(courses: &Vec<Course>) -> (b: bool)
    ensures
        b == distinct_ids(course_views(courses@)),
{
    let n: usize = courses.len();
    let mut j: usize = 0;
    while j < n
        invariant
            n == courses.len(),
            j <= n,
            forall|a: int, b: int| 0 <= a < b < j ==> courses[a]@.id != courses[b]@.id,
        decreases n - j,
    {
        let mut i: usize = 0;
        while i < j
            invariant
                n == courses.len(),
                i <= j < n,
                forall|a: int| 0 <= a < i ==> courses[a]@.id != courses[j as int]@.id,
            decreases j - i,
        {
            if courses[i].id == courses[j].id {
                assert(course_views(courses@)[i as int].id == course_views(courses@)[j as int].id);
                return false;
            }
            i += 1;
        }
        j += 1;
    }
    true
}

/// The position of the first course with id `id`, if there is one.
pub fn position_of(courses: &Vec<Course>, id: &str) -> (at: Option<usize>)
    ensures
        match at {
            Some(i) => i < courses.len() && courses[i as int]@.id == id@ && forall|k: int|
                0 <= k < i ==> courses[k]@.id != id@,
            None => forall|k: int| 0 <= k < courses.len() ==> courses[k]@.id != id@,
        },
{
    let wanted: String = id.to_owned();
    let mut i: usize = 0;
    while i < courses.len()
        invariant
            i <= courses.len(),
            wanted@ == id@,
            forall|k: int| 0 <= k < i ==> courses[k]@.id != id@,
        decreases courses.len() - i,
    {
        if courses[i].has_id(&wanted) {
            return Some(i);
        }
        i += 1;
    }
    None
}

/// The address of the course list, as contracts see it.
pub open spec fn courses_address() -> Seq<char> {
    "https://canvas.instructure.com/api/v1/courses"@
}

/// The address of the course list.
pub fn courses_url() -> (url: String)
    ensures
        url@ == courses_address(),
{
    "https://canvas.instructure.com/api/v1/courses".to_owned()
}

/// The address of the assignment list of the course with id `course_id`.
pub fn assignments_url(course_id: &str) -> (url: String)
    ensures
        url@ == courses_address() + "/"@ + course_id@ + "/assignments"@,
{
    courses_url().concat("/").concat(course_id).concat("/assignments")
}

/// The value of the `Authorization` header for the credential `api_key`.
pub fn bearer(api_key: &str) -> (value: String)
    ensures
        value@ == "Bearer "@ + api_key@,
{
    "Bearer ".to_owned().concat(api_key)
}

/// The text, if there is one, as contracts see it.
pub open spec fn opt_text(text: Option<String>) -> Option<Seq<char>> {
    match text {
        Some(t) => Some(t@),
        None => None,
    }
}

/// The text under `key` in `record`, where `record` is an object with a
/// text there.
pub open spec fn text_at(record: Json, key: Seq<char>) -> Option<Seq<char>> {
    match record {
        Json::Object(members) if members.contains_key(key) => match members[key] {
            Json::Text(t) => Some(t),
            _ => None,
        },
        _ => None,
    }
}

/// The text under `key` in `record`, if `record` is an object with a text
/// there.
fn text_under(record: &Value, key: &str) -> (text: Option<String>)
    ensures
        opt_text(text) == text_at(json_of(*record), key@),
{
    match json::member(record, key) {
        Some(member) => match json::as_str(member) {
            Some(t) => Some(t.to_owned()),
            None => None,
        },
        None => None,
    }
}

/// The credential that a configuration document holds: the text under
/// `key`.
pub open spec fn api_key_in(doc: Option<Json>) -> Result<Seq<char>, ConfigError> {
    match doc {
        None => Err(ConfigError::InvalidJson),
        Some(d) => api_key_of(text_at(d, "key"@)),
    }
}

/// The credential, given what stands under `key`.
pub open spec fn api_key_of(field: Option<Seq<char>>) -> Result<Seq<char>, ConfigError> {
    match field {
        Some(k) => Ok(k),
        None => Err(ConfigError::MissingKey),
    }
}

/// A credential or the failure, as contracts see them.
pub open spec fn key_view(r: Result<String, ConfigError>) -> Result<Seq<char>, ConfigError> {
    match r {
        Ok(k) => Ok(k@),
        Err(e) => Err(e),
    }
}

/// The credential, given what the configuration holds under `key`.
pub fn api_key_from_field(field: Option<String>) -> (r: Result<String, ConfigError>)
    ensures
        key_view(r) == api_key_of(opt_text(field)),
{
    match field {
        Some(k) => Ok(k),
        None => Err(ConfigError::MissingKey),
    }
}

/// Reads the credential from the text of the configuration file: a JSON
/// object with the API key as a text under `key`.
pub fn get_api_key(config: &str) -> (r: Result<String, ConfigError>)
    ensures
        key_view(r) == api_key_in(json_parsed(config@)),
{
    match json::parse(config) {
        Ok(doc) => api_key_from_field(text_under(&doc, "key")),
        Err(_) => Err(ConfigError::InvalidJson),
    }
}

/// The records of a reply: the elements of the list that it is.
pub open spec fn records_in(doc: Option<Json>) -> Result<Seq<Json>, FetchError> {
    match doc {
        None => Err(FetchError::InvalidJson),
        Some(Json::Array(records)) => Ok(records),
        Some(_) => Err(FetchError::NotAList),
    }
}

/// What the records of a course list hold under `course_code` and under
/// `course_id`.
pub open spec fn course_fields_in(records: Seq<Json>) -> Seq<
    (Option<Seq<char>>, Option<Seq<char>>),
> {
    records.map_values(|r: Json| (text_at(r, "course_code"@), text_at(r, "course_id"@)))
}

/// What the records of an assignment list hold under `name`.
pub open spec fn assignment_fields_in(records: Seq<Json>) -> Seq<Option<Seq<char>>> {
    records.map_values(|r: Json| text_at(r, "name"@))
}

/// Name and id of each record, as contracts see them.
pub open spec fn course_fields_view(fields: Seq<(Option<String>, Option<String>)>) -> Seq<
    (Option<Seq<char>>, Option<Seq<char>>),
> {
    fields.map_values(|f: (Option<String>, Option<String>)| (opt_text(f.0), opt_text(f.1)))
}

/// The name of each record, as contracts see it.
pub open spec fn assignment_fields_view(fields: Seq<Option<String>>) -> Seq<Option<Seq<char>>> {
    fields.map_values(|f: Option<String>| opt_text(f))
}

/// The field that a course record lacks, the name before the id.
pub open spec fn gap(record: (Option<Seq<char>>, Option<Seq<char>>)) -> Option<Field> {
    if record.0 is None {
        Some(Field::CourseCode)
    } else if record.1 is None {
        Some(Field::CourseId)
    } else {
        None
    }
}

/// The record at `j` has the id of an earlier record.
pub open spec fn repeats(records: Seq<(Option<Seq<char>>, Option<Seq<char>>)>, j: int) -> bool {
    exists|i: int| 0 <= i < j && (#[trigger] records[i]).1 == records[j].1
}

/// The record at `j` has its name and an id of its own.
pub open spec fn sound(records: Seq<(Option<Seq<char>>, Option<Seq<char>>)>, j: int) -> bool {
    gap(records[j]) is None && !repeats(records, j)
}

/// `result` is what the records of a course list amount to: the courses in
/// the order of the records where every record is sound, and else the
/// failure of the first record that is not, a missing field before a
/// repeated id.
pub open spec fn is_course_list(
    records: Seq<(Option<Seq<char>>, Option<Seq<char>>)>,
    result: Result<Seq<CourseView>, FetchError>,
) -> bool {
    match result {
        Ok(courses) => {
            &&& courses.len() == records.len()
            &&& forall|i: int|
                0 <= i < records.len() ==> records[i] == (
                    Some(courses[i].name),
                    Some(courses[i].id),
                )
            &&& forall|i: int| 0 <= i < records.len() ==> !repeats(records, i)
        },
        Err(FetchError::MissingField { record, field }) => {
            &&& record < records.len()
            &&& gap(records[record as int]) == Some(field)
            &&& forall|i: int| 0 <= i < record ==> sound(records, i)
        },
        Err(FetchError::DuplicateId { record }) => {
            &&& record < records.len()
            &&& gap(records[record as int]) is None
            &&& repeats(records, record as int)
            &&& forall|i: int| 0 <= i < record ==> sound(records, i)
        },
        Err(_) => false,
    }
}

/// `result` is what the records of an assignment list amount to: the names
/// in the order of the records where every record has one, and else the
/// failure of the first record that has none.
pub open spec fn is_assignment_list(
    records: Seq<Option<Seq<char>>>,
    result: Result<Seq<Seq<char>>, FetchError>,
) -> bool {
    match result {
        Ok(names) => {
            &&& names.len() == records.len()
            &&& forall|i: int| 0 <= i < records.len() ==> records[i] == Some(names[i])
        },
        Err(FetchError::MissingField { record, field }) => {
            &&& record < records.len()
            &&& field == Field::Name
            &&& records[record as int] is None
            &&& forall|i: int| 0 <= i < record ==> records[i] is Some
        },
        Err(_) => false,
    }
}

/// The records decide what they amount to: two results that both fit a
/// course list are the same.
pub proof fn theorem_course_list_is_decided(
    records: Seq<(Option<Seq<char>>, Option<Seq<char>>)>,
    a: Result<Seq<CourseView>, FetchError>,
    b: Result<Seq<CourseView>, FetchError>,
)
    requires
        is_course_list(records, a),
        is_course_list(records, b),
    ensures
        a == b,
{
    match (a, b) {
        (Ok(x), Ok(y)) => {
            assert forall|i: int| 0 <= i < x.len() implies x[i] == y[i] by {
                assert(records[i] == (Some(y[i].name), Some(y[i].id)));
            }
            assert(x =~= y);
        },
        (Err(e), Err(f)) => {
            let i = failing_record(e);
            let j = failing_record(f);
            if i < j {
                assert(sound(records, i as int));
            } else if j < i {
                assert(sound(records, j as int));
            }
        },
        _ => {},
    }
}

/// The record that a failure of a list is about.
pub open spec fn failing_record(e: FetchError) -> usize {
    match e {
        FetchError::MissingField { record, field } => record,
        FetchError::DuplicateId { record } => record,
        _ => 0,
    }
}

/// Two results that both fit an assignment list are the same.
pub proof fn theorem_assignment_list_is_decided(
    records: Seq<Option<Seq<char>>>,
    a: Result<Seq<Seq<char>>, FetchError>,
    b: Result<Seq<Seq<char>>, FetchError>,
)
    requires
        is_assignment_list(records, a),
        is_assignment_list(records, b),
    ensures
        a == b,
{
    match (a, b) {
        (Ok(x), Ok(y)) => {
            assert forall|i: int| 0 <= i < x.len() implies x[i] == y[i] by {
                assert(records[i] == Some(y[i]));
            }
            assert(x =~= y);
        },
        _ => {},
    }
}

/// The courses or the failure, as contracts see them.
pub open spec fn courses_view(r: Result<Vec<Course>, FetchError>) -> Result<
    Seq<CourseView>,
    FetchError,
> {
    match r {
        Ok(courses) => Ok(course_views(courses@)),
        Err(e) => Err(e),
    }
}

/// The names or the failure, as contracts see them.
pub open spec fn names_view(r: Result<Vec<String>, FetchError>) -> Result<
    Seq<Seq<char>>,
    FetchError,
> {
    match r {
        Ok(names) => Ok(names@.map_values(|n: String| n@)),
        Err(e) => Err(e),
    }
}

/// Makes the courses from what each record of a course list holds under
/// `course_code` and `course_id`. Every record must have both, and no id
/// may come twice: the first record that fails says how.
pub fn courses_from_fields(fields: Vec<(Option<String>, Option<String>)>) -> (r: Result<
    Vec<Course>,
    FetchError,
>)
    ensures
        is_course_list(course_fields_view(fields@), courses_view(r)),
        r matches Ok(courses) ==> distinct_ids(course_views(courses@)),
{
    let ghost records = course_fields_view(fields@);
    let mut courses: Vec<Course> = Vec::new();
    let mut j: usize = 0;
    while j < fields.len()
        invariant
            j <= fields.len(),
            courses.len() == j,
            records == course_fields_view(fields@),
            forall|i: int| 0 <= i < j ==> sound(records, i),
            forall|i: int|
                0 <= i < j ==> records[i] == (Some(courses[i]@.name), Some(courses[i]@.id)),
        decreases fields.len() - j,
    {
        let field = &fields[j];
        match &field.0 {
            None => {
                return Err(FetchError::MissingField { record: j, field: Field::CourseCode });
            },
            Some(name) => match &field.1 {
                None => {
                    return Err(FetchError::MissingField { record: j, field: Field::CourseId });
                },
                Some(id) => {
                    match position_of(&courses, id.as_str()) {
                        Some(i) => {
                            assert(records[i as int].1 == records[j as int].1);
                            return Err(FetchError::DuplicateId { record: j });
                        },
                        None => {
                            courses.push(Course::new(name.clone(), id.clone()));
                        },
                    }
                },
            },
        }
        j += 1;
    }
    proof {
        let views = course_views(courses@);
        assert forall|i: int| 0 <= i < records.len() implies records[i] == (
            Some(views[i].name),
            Some(views[i].id),
        ) && !repeats(records, i) by {
            assert(sound(records, i));
        }
        assert forall|a: int, b: int| 0 <= a < b < views.len() implies views[a].id
            != views[b].id by {
            assert(records[a].1 == Some(views[a].id));
            assert(records[b].1 == Some(views[b].id));
        }
    }
    Ok(courses)
}

/// Takes the names from what each record of an assignment list holds under
/// `name`. Every record must have one: the first that has none fails.
pub fn assignments_from_fields(fields: Vec<Option<String>>) -> (r: Result<Vec<String>, FetchError>)
    ensures
        is_assignment_list(assignment_fields_view(fields@), names_view(r)),
{
    let ghost records = assignment_fields_view(fields@);
    let mut names: Vec<String> = Vec::new();
    let mut j: usize = 0;
    while j < fields.len()
        invariant
            j <= fields.len(),
            names.len() == j,
            records == assignment_fields_view(fields@),
            forall|i: int| 0 <= i < j ==> records[i] == Some(names[i]@),
        decreases fields.len() - j,
    {
        match &fields[j] {
            None => {
                return Err(FetchError::MissingField { record: j, field: Field::Name });
            },
            Some(name) => {
                names.push(name.clone());
            },
        }
        j += 1;
    }
    Ok(names)
}

/// Reads the course list from the body of the service's reply: a JSON list
/// of objects, each with the course's name as a text under `course_code`
/// and its id as a text under `course_id`.
pub fn get_courses(body: &str) -> (r: Result<Vec<Course>, FetchError>)
    ensures
        match records_in(json_parsed(body@)) {
            Ok(records) => is_course_list(course_fields_in(records), courses_view(r)),
            Err(e) => courses_view(r) == Err::<Seq<CourseView>, FetchError>(e),
        },
        r matches Ok(courses) ==> distinct_ids(course_views(courses@)),
{
    let doc = match json::parse(body) {
        Ok(doc) => doc,
        Err(_) => {
            return Err(FetchError::InvalidJson);
        },
    };
    let items = match json::as_array(&doc) {
        Some(items) => items,
        None => {
            return Err(FetchError::NotAList);
        },
    };
    let ghost records = items@.map_values(|item: Value| json_of(item));
    let mut fields: Vec<(Option<String>, Option<String>)> = Vec::new();
    let mut i: usize = 0;
    while i < items.len()
        invariant
            i <= items.len(),
            fields.len() == i,
            records == items@.map_values(|item: Value| json_of(item)),
            forall|k: int|
                0 <= k < i ==> course_fields_view(fields@)[k] == course_fields_in(records)[k],
        decreases items.len() - i,
    {
        let record = &items[i];
        let name = text_under(record, "course_code");
        let id = text_under(record, "course_id");
        fields.push((name, id));
        i += 1;
    }
    assert(course_fields_view(fields@) =~= course_fields_in(records));
    courses_from_fields(fields)
}

/// Reads the assignment names from the body of the service's reply: a JSON
/// list of objects, each with the assignment's name as a text under `name`.
pub fn get_assignments(body: &str) -> (r: Result<Vec<String>, FetchError>)
    ensures
        match records_in(json_parsed(body@)) {
            Ok(records) => is_assignment_list(assignment_fields_in(records), names_view(r)),
            Err(e) => names_view(r) == Err::<Seq<Seq<char>>, FetchError>(e),
        },
{
    let doc = match json::parse(body) {
        Ok(doc) => doc,
        Err(_) => {
            return Err(FetchError::InvalidJson);
        },
    };
    let items = match json::as_array(&doc) {
        Some(items) => items,
        None => {
            return Err(FetchError::NotAList);
        },
    };
    let ghost records = items@.map_values(|item: Value| json_of(item));
    let mut fields: Vec<Option<String>> = Vec::new();
    let mut i: usize = 0;
    while i < items.len()
        invariant
            i <= items.len(),
            fields.len() == i,
            records == items@.map_values(|item: Value| json_of(item)),
            forall|k: int|
                0 <= k < i ==> assignment_fields_view(fields@)[k] == assignment_fields_in(
                    records,
                )[k],
        decreases items.len() - i,
    {
        let name = text_under(&items[i], "name");
        fields.push(name);
        i += 1;
    }
    assignments_from_fields(fields)
}

} // verus!
