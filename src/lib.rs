//! A scoped temporary path: a handle that reserves a fresh, unused name under
//! a temporary directory and, when its owner is done with it, tells what must
//! be removed at that path.

use vstd::prelude::*;
use vstd::string::StringExecFns;

pub mod name;
pub mod cleanup;

use crate::name::{is_candidate, make_tmp_file_name};

verus! {

/// How many fresh names `Temp::new` tries before it gives up.
pub const MAX_ATTEMPTS: usize = 10;

/// The message of the error that `Temp::new` returns when every name it tried
/// was taken.
pub open spec fn no_names_message() -> Seq<char> {
    "no names available."@
}

/// A temporary path whose owner removes whatever stands at `path` once the
/// handle goes out of use.
#[derive(Debug)]
pub struct Temp {
    pub path: String,
}

impl Temp {
    /// Reserves a random path under `dir` that `path_exists` reports as free.
    ///
    /// Up to `MAX_ATTEMPTS` candidates are generated; the first one that the
    /// probe reports absent becomes the handle's path. Nothing is created on
    /// disk. When every candidate is taken, the result is an error.
    pub fn new<F: Fn(&String) -> bool>(dir: &str, path_exists: F) -> (r: Result<Temp, String>)
        requires
            forall|p: &String| #[trigger] path_exists.requires((p,)),
        ensures
            (forall|p: &String, b: bool| path_exists.ensures((p,), b) ==> !b) ==> r is Ok,
            r matches Ok(t) ==> is_candidate(dir@, t.path@) && path_exists.ensures((&t.path,), false),
            r matches Err(e) ==> e@ == no_names_message() && exists|tried: Seq<String>|
                {
                    &&& tried.len() == MAX_ATTEMPTS
                    &&& forall|i: int| 0 <= i < tried.len() ==> is_candidate(dir@, #[trigger] tried[i]@)
                        && path_exists.ensures((&tried[i],), true)
                },
    {
        let ghost mut tried: Seq<String> = Seq::empty();
        let mut attempt: usize = 0;
        while attempt < MAX_ATTEMPTS
            invariant
                attempt <= MAX_ATTEMPTS,
                tried.len() == attempt,
                forall|p: &String| #[trigger] path_exists.requires((p,)),
                forall|i: int| 0 <= i < tried.len() ==> is_candidate(dir@, #[trigger] tried[i]@)
                    && path_exists.ensures((&tried[i],), true),
            decreases MAX_ATTEMPTS - attempt,
        {
            let candidate = make_tmp_file_name(dir);
            if !path_exists(&candidate) {
                return Ok(Temp { path: candidate });
            }
            proof {
                tried = tried.push(candidate);
            }
            attempt = attempt + 1;
        }
        assert(is_candidate(dir@, tried[0]@));
        let msg = "no names available.";
        Err(String::from_str(msg))
    }

    /// Takes over the removal of `path`, whatever stands there now. No check
    /// is made.
    pub fn as_temp(path: String) -> (r: Temp)
        ensures
            r.path == path,
    {
        Temp { path: path }
    }
}

} // verus!
