//! The application's error type.

use vstd::prelude::*;
use vstd::string::*;
use vstd::std_specs::convert::FromSpecImpl;

verus! {

/// `std::io::Error`, carried through as an opaque value.
#[verifier::external_type_specification]
#[verifier::external_body]
pub struct ExIoError(std::io::Error);

/// `rusqlite::Error`, carried through as an opaque value.
#[verifier::external_type_specification]
#[verifier::external_body]
pub struct ExSqliteError(rusqlite::Error);

/// `serde_json::Error`, carried through as an opaque value.
#[verifier::external_type_specification]
#[verifier::external_body]
pub struct ExJsonError(serde_json::Error);

/// Everything that can go wrong in the application.
#[derive(Debug)]
pub enum AppError {
    /// The database refused.
    Database(String),
    /// Reading or writing failed.
    Io(std::io::Error),
    /// SQLite reported an error.
    Sqlite(rusqlite::Error),
    /// A value could not be serialised or read back.
    Serialization(String),
    /// A command could not be executed.
    CommandExecution(String),
    /// The configuration could not be read or written.
    Config(String),
    /// The system refused.
    System(String),
    /// Anything else.
    Unknown(String),
}

/// A result with an [`AppError`].
pub type AppResult<T> = Result<T, AppError>;

/// Whether `s` begins with `prefix`.
pub open spec fn begins_with(s: Seq<char>, prefix: Seq<char>) -> bool {
    s.len() >= prefix.len() && s.take(prefix.len() as int) == prefix
}

impl AppError {
    /// The words that open the message of the error, by its kind.
    pub open spec fn prefix(self) -> Seq<char> {
        match self {
            AppError::Database(_) => "数据库错误: "@,
            AppError::Io(_) => "IO错误: "@,
            AppError::Sqlite(_) => "SQLite错误: "@,
            AppError::Serialization(_) => "序列化错误: "@,
            AppError::CommandExecution(_) => "命令执行错误: "@,
            AppError::Config(_) => "配置错误: "@,
            AppError::System(_) => "系统错误: "@,
            AppError::Unknown(_) => "未知错误: "@,
        }
    }

    /// The detail that the error carries as text; `None` for the kinds that
    /// carry an error of the system or of the database.
    pub open spec fn detail(self) -> Option<Seq<char>> {
        match self {
            AppError::Database(m) => Some(m@),
            AppError::Io(_) => None,
            AppError::Sqlite(_) => None,
            AppError::Serialization(m) => Some(m@),
            AppError::CommandExecution(m) => Some(m@),
            AppError::Config(m) => Some(m@),
            AppError::System(m) => Some(m@),
            AppError::Unknown(m) => Some(m@),
        }
    }

    fn prefix_text(&self) -> (r: &'static str)
        ensures
            r@ == self.prefix(),
    {
        match self {
            AppError::Database(_) => "数据库错误: ",
            AppError::Io(_) => "IO错误: ",
            AppError::Sqlite(_) => "SQLite错误: ",
            AppError::Serialization(_) => "序列化错误: ",
            AppError::CommandExecution(_) => "命令执行错误: ",
            AppError::Config(_) => "配置错误: ",
            AppError::System(_) => "系统错误: ",
            AppError::Unknown(_) => "未知错误: ",
        }
    }

    /// The message of the error: the words for its kind, then its detail.
    /// For an error of the system or of the database the detail is the text
    /// that the error writes of itself, that is, what `to_string` gives for
    /// it.
    pub fn message(&self) -> (r: String)
        ensures
            begins_with(r@, self.prefix()),
            self.detail() matches Some(d) ==> r@ == self.prefix() + d,
            *self matches AppError::Io(e) ==> exists|text: String|
                #[trigger] to_string_from_display_ensures::<std::io::Error>(&e, text) && r@
                    == self.prefix() + text@,
            *self matches AppError::Sqlite(e) ==> exists|text: String|
                #[trigger] to_string_from_display_ensures::<rusqlite::Error>(&e, text) && r@
                    == self.prefix() + text@,
    {
        let mut s = String::from_str(self.prefix_text());
        let ghost p = s@;
        match self {
            AppError::Database(m) => s.append(m.as_str()),
            AppError::Io(e) => {
                let text = e.to_string();
                s.append(text.as_str());
            },
            AppError::Sqlite(e) => {
                let text = e.to_string();
                s.append(text.as_str());
            },
            AppError::Serialization(m) => s.append(m.as_str()),
            AppError::CommandExecution(m) => s.append(m.as_str()),
            AppError::Config(m) => s.append(m.as_str()),
            AppError::System(m) => s.append(m.as_str()),
            AppError::Unknown(m) => s.append(m.as_str()),
        }
        assert(s@.take(p.len() as int) =~= p);
        s
    }
}

impl From<std::io::Error> for AppError {
    fn from(err: std::io::Error) -> (r: Self) {
        AppError::Io(err)
    }
}

impl FromSpecImpl<std::io::Error> for AppError {
    open spec fn obeys_from_spec() -> bool {
        true
    }

    open spec fn from_spec(err: std::io::Error) -> Self {
        AppError::Io(err)
    }
}

impl From<rusqlite::Error> for AppError {
    fn from(err: rusqlite::Error) -> (r: Self) {
        AppError::Sqlite(err)
    }
}

impl FromSpecImpl<rusqlite::Error> for AppError {
    open spec fn obeys_from_spec() -> bool {
        true
    }

    open spec fn from_spec(err: rusqlite::Error) -> Self {
        AppError::Sqlite(err)
    }
}

impl From<String> for AppError {
    fn from(msg: String) -> (r: Self) {
        AppError::Unknown(msg)
    }
}

impl FromSpecImpl<String> for AppError {
    open spec fn obeys_from_spec() -> bool {
        true
    }

    open spec fn from_spec(msg: String) -> Self {
        AppError::Unknown(msg)
    }
}

impl From<serde_json::Error> for AppError {
    /// Keeps the text that the serialisation error writes of itself.
    fn from(err: serde_json::Error) -> (r: Self)
        ensures
            r matches AppError::Serialization(text) && to_string_from_display_ensures::<
                serde_json::Error,
            >(&err, text),
    {
        AppError::Serialization(err.to_string())
    }
}

impl FromSpecImpl<serde_json::Error> for AppError {
    /// The text of the error is not modelled, so contracts cannot name the
    /// converted value: see the `ensures` of `from`.
    open spec fn obeys_from_spec() -> bool {
        false
    }

    open spec fn from_spec(err: serde_json::Error) -> Self {
        AppError::Serialization(arbitrary())
    }
}

impl<'a> From<&'a str> for AppError {
    fn from(msg: &'a str) -> (r: Self)
        ensures
            r matches AppError::Unknown(m) && m@ == msg@,
    {
        AppError::Unknown(String::from_str(msg))
    }
}

impl<'a> FromSpecImpl<&'a str> for AppError {
    /// The conversion makes a new string, which contracts know by its text
    /// only: see the `ensures` of `from`.
    open spec fn obeys_from_spec() -> bool {
        false
    }

    open spec fn from_spec(msg: &'a str) -> Self {
        AppError::Unknown(arbitrary())
    }
}

} // verus!
