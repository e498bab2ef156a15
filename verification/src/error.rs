//! The errors of the application and the messages shown for them.

use vstd::prelude::*;

verus! {

#[verifier::external_type_specification]
#[verifier::external_body]
pub struct ExDatabaseError(rusqlite::Error);

#[verifier::external_type_specification]
#[verifier::external_body]
pub struct ExIoError(std::io::Error);

/// Everything that can go wrong in the application.
#[derive(Debug)]
pub enum AppError {
    /// The database refused a statement.
    Database(rusqlite::Error),
    /// The terminal could not be read or written.
    IO(std::io::Error),
    /// A typed date does not read as `YYYY-MM-DD`.
    DateParse(String),
    /// A typed or stored date-time does not read as one.
    DateTimeParse(String),
    /// The interface reached a state that it should not reach.
    InvalidState(String),
    /// Anything else.
    Unexpected(String),
}

pub type AppResult<T> = Result<T, AppError>;

impl AppError {
    /// The message shown to the user for this error.
    pub open spec fn message(&self) -> Seq<char> {
        match self {
            AppError::Database(_) => "Database error occurred. Please check the database."@,
            AppError::IO(_) => "Input/Output error occurred. Please check the terminal."@,
            AppError::DateParse(_) => "Invalid date format. Please use YYYY-MM-DD."@,
            AppError::DateTimeParse(_) => "Invalid date-time format. Please use YYYY-MM-DD HH:MM."@,
            AppError::InvalidState(msg) => "Invalid state: "@ + msg@,
            AppError::Unexpected(msg) => "Unexpected error: "@ + msg@,
        }
    }

    /// The message of each kind of error: a fixed sentence for the database,
    /// the terminal and the two date formats, whatever they carry; and for an
    /// invalid state or an unexpected error, a fixed lead followed by the
    /// detail it carries.
    pub proof fn messages_name_the_problem(e: AppError)
        ensures
            e is Database ==> e.message() == "Database error occurred. Please check the database."@,
            e is IO ==> e.message() == "Input/Output error occurred. Please check the terminal."@,
            e is DateParse ==> e.message() == "Invalid date format. Please use YYYY-MM-DD."@,
            e is DateTimeParse ==> e.message()
                == "Invalid date-time format. Please use YYYY-MM-DD HH:MM."@,
            e matches AppError::InvalidState(m) ==> e.message() == "Invalid state: "@ + m@,
            e matches AppError::Unexpected(m) ==> e.message() == "Unexpected error: "@ + m@,
    {
    }

    /// The message shown to the user for this error.
    pub fn user_message(&self) -> (res: String)
        ensures
            res@ == self.message(),
    {
        match self {
            AppError::Database(_) => String::from_str(
                "Database error occurred. Please check the database.",
            ),
            AppError::IO(_) => String::from_str(
                "Input/Output error occurred. Please check the terminal.",
            ),
            AppError::DateParse(_) => String::from_str("Invalid date format. Please use YYYY-MM-DD."),
            AppError::DateTimeParse(_) => String::from_str(
                "Invalid date-time format. Please use YYYY-MM-DD HH:MM.",
            ),
            AppError::InvalidState(msg) => {
                let mut res = String::from_str("Invalid state: ");
                res.append(msg.as_str());
                res
            },
            AppError::Unexpected(msg) => {
                let mut res = String::from_str("Unexpected error: ");
                res.append(msg.as_str());
                res
            },
        }
    }
}

} // verus!
