//! The envelope of the admin API's JSON answers.

use vstd::prelude::*;

verus! {

/// The outcome code of an admin answer.
#[derive(PartialEq, Eq, Structural, Clone, Copy, Debug)]
pub enum ResponseCode {
    Success,
}

pub open spec fn code_value(c: ResponseCode) -> i32 {
    match c {
        ResponseCode::Success => 1000,
    }
}

impl ResponseCode {
    /// The number that stands for the code on the wire.
    pub fn value(&self) -> (r: i32)
        ensures
            r == code_value(*self),
    {
        match self {
            ResponseCode::Success => 1000,
        }
    }
}

/// An admin answer: a code, a message and the data.
pub struct Response<T> {
    pub code: ResponseCode,
    pub message: String,
    pub data: T,
}

impl<T> Response<T> {
    /// A successful answer carrying `data`.
    pub fn success(data: T) -> (r: Self)
        ensures
            r.code == ResponseCode::Success,
            r.message@ == "Success"@,
            r.data == data,
    {
        proof {
            reveal_strlit("Success");
        }
        Response { code: ResponseCode::Success, message: String::from_str("Success"), data }
    }
}

} // verus!
