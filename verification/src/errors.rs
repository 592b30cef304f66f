//! The error type of the tool: one variant per failure category, each
//! carrying a human-readable detail, and the text each one displays as.

use vstd::prelude::*;

verus! {

/// `std::io::Error`, carried through the I/O-to-CSV-error conversion.
#[verifier::external_type_specification]
#[verifier::external_body]
pub struct ExIoError(std::io::Error);

/// `csv::Error`, carried through the CSV-error conversion.
#[verifier::external_type_specification]
#[verifier::external_body]
pub struct ExCsvError(csv::Error);

/// Every failure the tool reports.
#[derive(Debug)]
pub enum GhrrError {
    /// Missing or empty credentials; displays the detail alone.
    Auth(String),
    /// A GitHub API failure other than rate limiting.
    Api(String),
    /// GitHub refused the request because the rate limit is exhausted.
    RateLimit(String),
    /// Creating, writing or flushing the CSV output failed.
    Csv(String),
    /// The repository could not be resolved.
    Repository(String),
}

/// Text put before the detail of an API error.
pub open spec fn api_prefix() -> Seq<char> {
    "GitHub API error: "@
}

/// Text put before the detail of a rate-limit error.
pub open spec fn rate_limit_prefix() -> Seq<char> {
    "Rate limit exceeded: "@
}

/// Text put before the detail of a CSV error.
pub open spec fn csv_prefix() -> Seq<char> {
    "CSV error: "@
}

/// Text put before the detail of a repository error.
pub open spec fn repository_prefix() -> Seq<char> {
    "Repository error: "@
}

/// Text put before the description of an I/O error turned into a CSV error.
pub open spec fn io_prefix() -> Seq<char> {
    "I/O error: "@
}

impl GhrrError {
    /// The detail carried by the error, whatever its variant.
    pub open spec fn detail(self) -> Seq<char> {
        match self {
            GhrrError::Auth(m) => m@,
            GhrrError::Api(m) => m@,
            GhrrError::RateLimit(m) => m@,
            GhrrError::Csv(m) => m@,
            GhrrError::Repository(m) => m@,
        }
    }

    /// The text the error displays as: the detail alone for `Auth`, else
    /// the variant's prefix followed by the detail.
    pub open spec fn display(self) -> Seq<char> {
        match self {
            GhrrError::Auth(m) => m@,
            GhrrError::Api(m) => api_prefix() + m@,
            GhrrError::RateLimit(m) => rate_limit_prefix() + m@,
            GhrrError::Csv(m) => csv_prefix() + m@,
            GhrrError::Repository(m) => repository_prefix() + m@,
        }
    }

    /// Whether the error is GitHub's rate-limit refusal.
    pub fn is_rate_limit(&self) -> (res: bool)
        ensures
            res == (*self is RateLimit),
    {
        matches!(self, GhrrError::RateLimit(_))
    }

    /// Whether the error is an authentication failure.
    pub fn is_auth(&self) -> (res: bool)
        ensures
            res == (*self is Auth),
    {
        matches!(self, GhrrError::Auth(_))
    }

    /// The text the error displays as.
    pub fn to_string(&self) -> (s: String)
        ensures
            s@ == self.display(),
    {
        match self {
            GhrrError::Auth(m) => m.clone(),
            GhrrError::Api(m) => String::from_str("GitHub API error: ").concat(m.as_str()),
            GhrrError::RateLimit(m) => String::from_str("Rate limit exceeded: ").concat(m.as_str()),
            GhrrError::Csv(m) => String::from_str("CSV error: ").concat(m.as_str()),
            GhrrError::Repository(m) => String::from_str("Repository error: ").concat(m.as_str()),
        }
    }

    /// The CSV error that an I/O failure described by `description` becomes:
    /// the description behind `I/O error: `.
    pub fn from_io_description(description: &str) -> (e: GhrrError)
        ensures
            e is Csv,
            e.detail() == io_prefix() + description@,
    {
        GhrrError::Csv(String::from_str("I/O error: ").concat(description))
    }
}

/// Whatever its variant, an error's displayed text ends with its detail.
pub proof fn lemma_display_ends_with_detail(e: GhrrError)
    ensures
        e.display().len() >= e.detail().len(),
        e.display().skip(e.display().len() - e.detail().len()) == e.detail(),
{
    let d = e.detail();
    let shown = e.display();
    assert(shown.skip(shown.len() - d.len()) =~= d);
}

/// An error is never classified both as rate limiting and as an
/// authentication failure.
pub proof fn lemma_rate_limit_and_auth_exclusive(e: GhrrError)
    ensures
        !(e is RateLimit && e is Auth),
{
}

impl From<std::io::Error> for GhrrError {
    /// An I/O failure becomes a CSV error whose detail is `I/O error: `
    /// followed by the I/O error's own description.
    fn from(err: std::io::Error) -> (e: GhrrError)
        ensures
            e is Csv,
            exists|description: String|
                vstd::string::to_string_from_display_ensures::<std::io::Error>(&err, description)
                    && e.detail() == io_prefix() + description@,
    {
        let description = err.to_string();
        GhrrError::from_io_description(description.as_str())
    }
}

impl vstd::std_specs::convert::FromSpecImpl<std::io::Error> for GhrrError {
    /// The description of an I/O error is not modelled, so no closed form of
    /// the conversion is claimed; `from` states what holds of every result.
    open spec fn obeys_from_spec() -> bool {
        false
    }

    open spec fn from_spec(v: std::io::Error) -> GhrrError {
        arbitrary()
    }
}

impl From<csv::Error> for GhrrError {
    /// A CSV library failure becomes a CSV error carrying its description.
    fn from(err: csv::Error) -> (e: GhrrError)
        ensures
            e is Csv,
            exists|description: String|
                vstd::string::to_string_from_display_ensures::<csv::Error>(&err, description)
                    && e.detail() == description@,
    {
        let description = err.to_string();
        let ghost witness = description;
        let e = GhrrError::Csv(description);
        assert(vstd::string::to_string_from_display_ensures::<csv::Error>(&err, witness));
        assert(e.detail() == witness@);
        e
    }
}

impl vstd::std_specs::convert::FromSpecImpl<csv::Error> for GhrrError {
    /// The description of a CSV library error is not modelled; `from`
    /// states the variant of every result.
    open spec fn obeys_from_spec() -> bool {
        false
    }

    open spec fn from_spec(v: csv::Error) -> GhrrError {
        arbitrary()
    }
}

} // verus!
