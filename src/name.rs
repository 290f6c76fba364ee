//! Random names for temporary paths.

use vstd::prelude::*;
use vstd::string::StringExecFns;
use rand::Rng;

verus! {

/// Number of characters in a generated basename.
pub const NAME_LEN: usize = 10;

/// The characters a generated basename is drawn from: ASCII letters and digits.
pub open spec fn is_name_char(c: char) -> bool {
    ('A' <= c && c <= 'Z') || ('a' <= c && c <= 'z') || ('0' <= c && c <= '9')
}

/// A generated basename: exactly `NAME_LEN` letters and digits.
pub open spec fn is_basename(s: Seq<char>) -> bool {
    &&& s.len() == NAME_LEN
    &&& forall|i: int| 0 <= i < s.len() ==> is_name_char(#[trigger] s[i])
}

/// `name` placed inside the directory `dir`: a separator goes between them
/// unless `dir` is empty or already ends with one.
pub open spec fn joined(dir: Seq<char>, name: Seq<char>) -> Seq<char> {
    if dir.len() == 0 || dir.last() == '/' {
        dir + name
    } else {
        dir + seq!['/'] + name
    }
}

/// A path that the name generator may produce for the directory `dir`.
pub open spec fn is_candidate(dir: Seq<char>, path: Seq<char>) -> bool {
    exists|name: Seq<char>| is_basename(name) && path == joined(dir, name)
}

/// Relies on `rand::Rng::gen_ascii_chars` on the thread-local generator: an
/// endless stream of characters, each picked from `A-Z`, `a-z` and `0-9`.
#[verifier::external_body]
fn random_ascii_chars(n: usize) -> (r: String)
    ensures
        r@.len() == n,
        forall|i: int| 0 <= i < r@.len() ==> is_name_char(#[trigger] r@[i]),
{
    rand::thread_rng().gen_ascii_chars().take(n).collect::<String>()
}

/// Puts `name` inside the directory `dir`, as a relative path is adjoined to a
/// directory on Unix.
pub fn join_path(dir: &str, name: &str) -> (r: String)
    ensures
        r@ == joined(dir@, name@),
{
    let n = dir.unicode_len();
    let mut r = String::from_str(dir);
    if n > 0 && dir.get_char(n - 1) != '/' {
        let sep = "/";
        proof {
            reveal_strlit("/");
        }
        r.append(sep);
    }
    r.append(name);
    r
}

/// A fresh candidate path: `dir` joined with `NAME_LEN` random letters and
/// digits. Nothing is created on disk.
pub fn make_tmp_file_name(dir: &str) -> (r: String)
    ensures
        is_candidate(dir@, r@),
{
    let name = random_ascii_chars(NAME_LEN);
    let r = join_path(dir, name.as_str());
    assert(is_basename(name@));
    r
}

} // verus!
