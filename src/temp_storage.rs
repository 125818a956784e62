use vstd::prelude::*;
use vstd::string::*;

use rand::Rng;

verus! {

/// Whether `c` is an ASCII letter or digit.
pub open spec fn is_alphanumeric(c: char) -> bool {
    ('a' <= c <= 'z') || ('A' <= c <= 'Z') || ('0' <= c <= '9')
}

/// Relies on rand's `thread_rng` sampled with `distributions::Alphanumeric`:
/// `len` characters, each an ASCII letter or digit.
#[verifier::external_body]
fn random_alphanumeric(len: usize) -> (r: String)
    ensures
        r@.len() == len,
        forall|i: int| 0 <= i < len ==> is_alphanumeric(#[trigger] r@[i]),
{
    rand::thread_rng().sample_iter(&rand::distributions::Alphanumeric).take(len).map(char::from).collect()
}

/// The length of the random part of a temporary file's name.
pub const RANDOM_NAME_LENGTH: usize = 25;

/// A random name of 25 letters and digits.
pub fn get_random_string() -> (r: String)
    ensures
        r@.len() == RANDOM_NAME_LENGTH,
        forall|i: int| 0 <= i < r@.len() ==> is_alphanumeric(#[trigger] r@[i]),
{
    random_alphanumeric(RANDOM_NAME_LENGTH)
}

/// The path of a temporary file named `name` with the extension
/// `file_ending` in the directory `dir`.
pub fn temp_file_path(dir: &str, name: &str, file_ending: &str) -> (r: String)
    ensures
        r@ == dir@ + "/"@ + name@ + "."@ + file_ending@,
{
    let mut path = String::from_str(dir);
    path.append("/");
    path.append(name);
    path.append(".");
    path.append(file_ending);
    path
}

/// The path of a new temporary file with the extension `file_ending` in
/// the directory `dir`, under a random name.
pub fn create_temp_file_path(file_ending: &str, dir: &str) -> (r: String)
    ensures
        exists|name: Seq<char>|
            #![trigger name.len()]
            name.len() == RANDOM_NAME_LENGTH && r@ == dir@ + "/"@ + name + "."@ + file_ending@,
{
    let name = get_random_string();
    let path = temp_file_path(dir, name.as_str(), file_ending);
    assert(name@.len() == RANDOM_NAME_LENGTH);
    path
}

} // verus!
