use vstd::prelude::*;

verus! {

/// A response body that carries one boolean.
pub struct BooleanResponse {
    pub result: bool,
}

impl BooleanResponse {
    /// The response that carries `result`.
    pub fn of(result: bool) -> (r: Self)
        ensures
            r.result == result,
    {
        if result {
            BooleanResponse { result: true }
        } else {
            BooleanResponse { result: false }
        }
    }
}

/// The body of a login request: the personnel number as text, and the
/// password.
pub struct UsernamePasswordCredentials {
    pub username: String,
    pub password: String,
}

impl UsernamePasswordCredentials {
    /// A login request body.
    pub fn new(username: String, password: String) -> (r: Self)
        ensures
            r.username@ == username@,
            r.password@ == password@,
    {
        UsernamePasswordCredentials { username, password }
    }
}

/// Where the server's TLS key and certificate chain are found: a directory
/// and two file names in it.
pub struct SSLConfig {
    pub path: String,
    pub keyfile: String,
    pub certfile: String,
}

} // verus!
