use vstd::prelude::*;

verus! {

/// The public base URL of the application, as configured.
pub struct ApplicationBaseUrl(pub String);

impl ApplicationBaseUrl {
    /// The absolute URL of `path` under the base URL.
    pub fn url_for(&self, path: &str) -> (r: String)
        ensures
            r@ == self.0@ + path@,
    {
        self.0.clone().concat(path)
    }
}

} // verus!
