//! The lookup resolver: what the rows of
//! `SELECT name FROM staff_users WHERE user_id = $1` say about a user.

use vstd::prelude::*;

verus! {

/// The statement that looks a user's name up. The identifier is bound as its
/// one parameter and never spliced into the text.
pub const LOOKUP_STATEMENT: &'static str = "SELECT name FROM staff_users WHERE user_id = $1";

/// Why a user's name could not be resolved.
#[derive(Debug, Clone, Copy, PartialEq, Eq, Structural)]
pub enum ResolveError {
    /// No row carries the identifier.
    NotFound,
    /// More than one row carries the identifier.
    Ambiguous,
    /// The database could not be asked.
    Unavailable,
}

/// What came back from the database.
#[derive(Debug, PartialEq, Eq)]
pub enum QueryOutcome {
    /// The `name` column of every row that matched.
    Rows(Vec<String>),
    /// The pool or the transport failed.
    Failed,
}

/// The mathematical value of a [`QueryOutcome`].
pub enum QueryOutcomeView {
    Rows(Seq<Seq<char>>),
    Failed,
}

impl View for QueryOutcome {
    type V = QueryOutcomeView;

    open spec fn view(&self) -> QueryOutcomeView {
        match self {
            QueryOutcome::Rows(names) => QueryOutcomeView::Rows(
                Seq::new(names.len() as nat, |i: int| names[i]@),
            ),
            QueryOutcome::Failed => QueryOutcomeView::Failed,
        }
    }
}

/// The name that an outcome resolves to: that of the one row, where there is
/// exactly one.
pub open spec fn resolve_spec(outcome: QueryOutcomeView) -> Result<Seq<char>, ResolveError> {
    match outcome {
        QueryOutcomeView::Failed => Err(ResolveError::Unavailable),
        QueryOutcomeView::Rows(names) => if names.len() == 0 {
            Err(ResolveError::NotFound)
        } else if names.len() == 1 {
            Ok(names[0])
        } else {
            Err(ResolveError::Ambiguous)
        },
    }
}

/// Resolves a user's name from the outcome of the lookup.
pub fn resolve(outcome: QueryOutcome) -> (name: Result<String, ResolveError>)
    ensures
        match name {
            Ok(n) => resolve_spec(outcome@) == Ok::<Seq<char>, ResolveError>(n@),
            Err(error) => resolve_spec(outcome@) == Err::<Seq<char>, ResolveError>(error),
        },
{
    match outcome {
        QueryOutcome::Failed => Err(ResolveError::Unavailable),
        QueryOutcome::Rows(names) => {
            let mut names = names;
            if names.len() > 1 {
                return Err(ResolveError::Ambiguous);
            }
            match names.pop() {
                Some(name) => Ok(name),
                None => Err(ResolveError::NotFound),
            }
        },
    }
}

} // verus!
