//! Database errors and how they are reported.
use vstd::prelude::*;
use crate::text::{join_detail, with_detail};

verus! {

/// A failed database operation, carried by the text it displays as.
#[derive(Debug, PartialEq)]
pub struct DbError {
    pub message: String,
}

impl Clone for DbError {
    fn clone(&self) -> (r: Self)
        ensures
            r == *self,
    {
        DbError { message: self.message.clone() }
    }
}

/// Whether `out` is what reporting `input` under `msg` gives: a success is
/// kept as it is, a failure becomes the text `"{msg}: {error}"`.
pub open spec fn is_traced<T>(input: Result<T, DbError>, msg: Seq<char>, out: Result<T, String>) -> bool {
    match input {
        Ok(v) => out == Ok::<T, String>(v),
        Err(e) => out matches Err(s) && s@ == with_detail(msg, e.message@),
    }
}

/// Turns database failures into text that names what failed.
pub trait TraceError: Sized {
    /// The success type that is kept.
    type Value;

    /// Reports a failure at error level and turns it into `"{msg}: {error}"`.
    fn trace_err(self, msg: &str) -> Result<Self::Value, String>;

    /// Reports a failure at warning level and turns it into `"{msg}: {error}"`.
    fn trace_warn(self, msg: &str) -> Result<Self::Value, String>;
}

impl<T> TraceError for Result<T, DbError> {
    type Value = T;

    fn trace_err(self, msg: &str) -> (r: Result<T, String>)
        ensures
            is_traced(self, msg@, r),
    {
        match self {
            Ok(v) => Ok(v),
            Err(e) => Err(join_detail(msg, e.message.as_str())),
        }
    }

    fn trace_warn(self, msg: &str) -> (r: Result<T, String>)
        ensures
            is_traced(self, msg@, r),
    {
        match self {
            Ok(v) => Ok(v),
            Err(e) => Err(join_detail(msg, e.message.as_str())),
        }
    }
}

} // verus!
