//! The failures the dashboard can meet, each with the text shown for it.

use vstd::prelude::*;

verus! {

/// The field of a remote record that a failure is about.
#[derive(Clone, Copy, Debug, PartialEq, Eq, Structural)]
pub enum Field {
    /// A course's display name, sent as `course_code`.
    CourseCode,
    /// A course's id, sent as `course_id`.
    CourseId,
    /// An assignment's `name`.
    Name,
}

/// Why the course service gave no usable answer.
#[derive(Clone, Copy, Debug, PartialEq, Eq, Structural)]
pub enum FetchError {
    /// The request did not get through, or the service answered with a failure.
    Network,
    /// The service did not answer within the time allowed.
    TimedOut,
    /// The service refused the credential.
    Authentication,
    /// The answer is not JSON.
    InvalidJson,
    /// The answer is JSON, but not a list of records.
    NotAList,
    /// The record at position `record` has no text under `field`.
    MissingField { record: usize, field: Field },
    /// The course at position `record` repeats the id of an earlier one.
    DuplicateId { record: usize },
}

impl FetchError {
    /// The text shown to the user for this failure, as contracts see it.
    pub open spec fn text(self) -> Seq<char> {
        match self {
            FetchError::Network => "could not reach the course service"@,
            FetchError::TimedOut => "the course service did not answer in time"@,
            FetchError::Authentication => "the course service rejected the API key"@,
            FetchError::InvalidJson => "the course service sent a reply that is not JSON"@,
            FetchError::NotAList => "the course service sent a reply that is not a list"@,
            FetchError::MissingField { record, field } => match field {
                Field::CourseCode => "a course in the reply has no course_code"@,
                Field::CourseId => "a course in the reply has no course_id"@,
                Field::Name => "an assignment in the reply has no name"@,
            },
            FetchError::DuplicateId { record } => "two courses in the reply share an id"@,
        }
    }

    /// The text shown to the user for this failure.
    pub fn message(&self) -> (s: String)
        ensures
            s@ == self.text(),
    {
        match self {
            FetchError::Network => "could not reach the course service".to_owned(),
            FetchError::TimedOut => "the course service did not answer in time".to_owned(),
            FetchError::Authentication => "the course service rejected the API key".to_owned(),
            FetchError::InvalidJson => "the course service sent a reply that is not JSON".to_owned(),
            FetchError::NotAList => "the course service sent a reply that is not a list".to_owned(),
            FetchError::MissingField { record, field } => match field {
                Field::CourseCode => "a course in the reply has no course_code".to_owned(),
                Field::CourseId => "a course in the reply has no course_id".to_owned(),
                Field::Name => "an assignment in the reply has no name".to_owned(),
            },
            FetchError::DuplicateId { record } => "two courses in the reply share an id".to_owned(),
        }
    }

    /// What an HTTP status says of a reply: `None` for success (2xx), a
    /// refused credential for 401 and 403, a network failure for the rest.
    pub open spec fn of_status(status: u16) -> Option<FetchError> {
        if 200 <= status < 300 {
            None
        } else if status == 401 || status == 403 {
            Some(FetchError::Authentication)
        } else {
            Some(FetchError::Network)
        }
    }

    /// What the HTTP status of a reply says of it.
    pub fn from_status(status: u16) -> (e: Option<FetchError>)
        ensures
            e == FetchError::of_status(status),
    {
        if 200 <= status && status < 300 {
            None
        } else if status == 401 || status == 403 {
            Some(FetchError::Authentication)
        } else {
            Some(FetchError::Network)
        }
    }
}

/// Why no credential could be had from the configuration file.
#[derive(Clone, Copy, Debug, PartialEq, Eq, Structural)]
pub enum ConfigError {
    /// The file could not be read.
    Missing,
    /// The file is not JSON.
    InvalidJson,
    /// The file is JSON without a text under `key`.
    MissingKey,
}

impl ConfigError {
    /// The text shown to the user for this failure, as contracts see it.
    pub open spec fn text(self) -> Seq<char> {
        match self {
            ConfigError::Missing => "config.json could not be read"@,
            ConfigError::InvalidJson => "config.json is not JSON"@,
            ConfigError::MissingKey => "config.json holds no API key"@,
        }
    }

    /// The text shown to the user for this failure.
    pub fn message(&self) -> (s: String)
        ensures
            s@ == self.text(),
    {
        match self {
            ConfigError::Missing => "config.json could not be read".to_owned(),
            ConfigError::InvalidJson => "config.json is not JSON".to_owned(),
            ConfigError::MissingKey => "config.json holds no API key".to_owned(),
        }
    }
}

/// What ends the program before the user quits.
#[derive(Clone, Copy, Debug, PartialEq, Eq, Structural)]
pub enum FatalError {
    /// No credential could be had.
    Config(ConfigError),
    /// The courses could not be fetched at start.
    Fetch(FetchError),
    /// The terminal could not be set up, drawn on or given back.
    Terminal,
}

impl FatalError {
    /// The text shown to the user for this failure, as contracts see it.
    pub open spec fn text(self) -> Seq<char> {
        match self {
            FatalError::Config(e) => e.text(),
            FatalError::Fetch(e) => e.text(),
            FatalError::Terminal => "the terminal could not be used"@,
        }
    }

    /// The text shown to the user for this failure.
    pub fn message(&self) -> (s: String)
        ensures
            s@ == self.text(),
    {
        match self {
            FatalError::Config(e) => e.message(),
            FatalError::Fetch(e) => e.message(),
            FatalError::Terminal => "the terminal could not be used".to_owned(),
        }
    }
}

/// The exit code of the program: 0 where the user quit, 1 where a failure
/// ended it.
pub fn exit_code(outcome: Result<(), FatalError>) -> (code: u8)
    ensures
        code == if outcome is Ok {
            0u8
        } else {
            1u8
        },
{
    match outcome {
        Ok(_) => 0,
        Err(_) => 1,
    }
}

} // verus!
