//! Error classification: the store signals a transient serialization conflict
//! with one well-known five-byte SQLSTATE code; every other error, including
//! one that carries no code at all, is permanent.

use vstd::prelude::*;

verus! {

/// SQLSTATE "40001", the classification code the store attaches to a
/// serialization failure.  An error carrying exactly this code is the one
/// kind of error the executor retries.
pub open spec fn serialization_failure_code() -> Seq<u8> {
    seq![52u8, 48u8, 48u8, 48u8, 49u8]
}

/// SQLSTATE "08006": the connection to the store failed.
pub open spec fn connectivity_code() -> Seq<u8> {
    seq![48u8, 56u8, 48u8, 48u8, 54u8]
}

/// SQLSTATE "23514": an application-level invariant (a check constraint)
/// was violated.
pub open spec fn check_violation_code() -> Seq<u8> {
    seq![50u8, 51u8, 53u8, 49u8, 52u8]
}

/// SQLSTATE "22003": a numeric value went out of range.
pub open spec fn out_of_range_code() -> Seq<u8> {
    seq![50u8, 50u8, 48u8, 48u8, 51u8]
}

/// An error reported by the data layer: at most a five-byte SQLSTATE
/// classification code.  A client-side failure (for example, a query that
/// returned no row to read) carries no code.
#[derive(Clone, Copy, Debug)]
pub struct DbError {
    pub code: Option<[u8; 5]>,
}

impl View for DbError {
    type V = Option<Seq<u8>>;

    open spec fn view(&self) -> Option<Seq<u8>> {
        match self.code {
            Some(c) => Some(c@),
            None => None,
        }
    }
}

/// True of an error view that carries the serialization-failure code.
pub open spec fn is_serialization_failure(e: Option<Seq<u8>>) -> bool {
    e matches Some(c) && c == serialization_failure_code()
}

impl DbError {
    /// The store detected a serialization conflict.
    pub fn conflict() -> (e: DbError)
        ensures
            e@ == Some(serialization_failure_code()),
    {
        let e = DbError { code: Some([52u8, 48u8, 48u8, 48u8, 49u8]) };
        proof {
            assert(e@->Some_0 =~= serialization_failure_code());
        }
        e
    }

    /// The connection to the store is gone.
    pub fn connectivity() -> (e: DbError)
        ensures
            e@ == Some(connectivity_code()),
    {
        let e = DbError { code: Some([48u8, 56u8, 48u8, 48u8, 54u8]) };
        proof {
            assert(e@->Some_0 =~= connectivity_code());
        }
        e
    }

    /// The operation found a domain rule violated.
    pub fn invariant_violation() -> (e: DbError)
        ensures
            e@ == Some(check_violation_code()),
    {
        let e = DbError { code: Some([50u8, 51u8, 53u8, 49u8, 52u8]) };
        proof {
            assert(e@->Some_0 =~= check_violation_code());
        }
        e
    }

    /// A balance update left the representable numeric range.
    pub fn out_of_range() -> (e: DbError)
        ensures
            e@ == Some(out_of_range_code()),
    {
        let e = DbError { code: Some([50u8, 50u8, 48u8, 48u8, 51u8]) };
        proof {
            assert(e@->Some_0 =~= out_of_range_code());
        }
        e
    }

    /// A client-side failure without a classification code, such as a
    /// single-row query that found no row.
    pub fn no_rows() -> (e: DbError)
        ensures
            e@ == None::<Seq<u8>>,
    {
        DbError { code: None }
    }
}

/// The two-way verdict the executor acts on: retry the attempt, or stop.
#[derive(Clone, Copy, PartialEq, Eq, Structural, Debug)]
pub enum Classification {
    Retryable,
    Permanent,
}

/// Maps an error to its classification.  Total: an error is retryable exactly
/// when it carries the serialization-failure code; anything else, including an
/// error without a code, is conservatively permanent.
pub fn classify(err: &DbError) -> (c: Classification)
    ensures
        c == Classification::Retryable <==> is_serialization_failure(err@),
{
    match err.code {
        None => Classification::Permanent,
        Some(code) => {
            if code[0] == 52u8 && code[1] == 48u8 && code[2] == 48u8 && code[3] == 48u8
                && code[4] == 49u8 {
                proof {
                    assert(code@ =~= serialization_failure_code());
                }
                Classification::Retryable
            } else {
                proof {
                    assert(code@ != serialization_failure_code()) by {
                        if code@ == serialization_failure_code() {
                            assert(code@[0] == 52u8 && code@[1] == 48u8 && code@[2] == 48u8
                                && code@[3] == 48u8 && code@[4] == 49u8);
                        }
                    }
                }
                Classification::Permanent
            }
        },
    }
}

} // verus!
