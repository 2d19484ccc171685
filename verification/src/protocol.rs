//! Which back end script is run, and how its replies are read.

use vstd::prelude::*;
use vstd::string::*;
use crate::model::GenericResponse;

verus! {

/// The reply to a write or export request: the reply itself, or its message as the error
/// when its status is `error`.
pub fn generic_outcome(res: GenericResponse) -> (r: Result<GenericResponse, String>)
    ensures
        res.status@ == "error"@ ==> (r matches Err(m) && m == res.message),
        res.status@ != "error"@ ==> (r matches Ok(g) && g == res),
{
    let error = String::from_str("error");
    if res.status == error {
        Err(res.message)
    } else {
        Ok(res)
    }
}

/// The error that a course data reply reports: its message, or a generic one when it has
/// none, when its status is `error`; none otherwise.
pub fn course_data_error(status: &String, message: &Option<String>) -> (r: Option<String>)
    ensures
        status@ == "error"@ ==> (r matches Some(e) && e@ == (match message {
            Some(m) => m@,
            None => "Unknown error from Python bridge"@,
        })),
        status@ != "error"@ ==> r is None,
{
    let error = String::from_str("error");
    if *status == error {
        match message {
            Some(m) => Some(m.clone()),
            None => Some(String::from_str("Unknown error from Python bridge")),
        }
    } else {
        None
    }
}

/// Which of the candidate places of the back end script to use, tried in order (the
/// working directory, the executable's directory and up to four of its ancestors, then
/// the install location): the first that exists, or none when none does.
pub fn first_existing(exists: &Vec<bool>) -> (r: Option<usize>)
    ensures
        match r {
            Some(i) => i < exists.len() && exists@[i as int] && forall|j: int|
                0 <= j < i ==> !exists@[j],
            None => forall|j: int| 0 <= j < exists.len() ==> !exists@[j],
        },
{
    let mut i: usize = 0;
    while i < exists.len()
        invariant
            i <= exists.len(),
            forall|j: int| 0 <= j < i ==> !exists@[j],
        decreases exists.len() - i,
    {
        if exists[i] {
            return Some(i);
        }
        i = i + 1;
    }
    None
}

} // verus!
