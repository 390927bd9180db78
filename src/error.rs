use vstd::prelude::*;

verus! {

/// The one error type of the library: a human-readable description.
#[derive(Debug)]
pub struct KindleError {
    pub message: String,
}

impl KindleError {
    /// Builds an error whose message is `prefix` followed by `detail`.
    pub fn with_detail(prefix: &str, detail: &str) -> (r: KindleError)
        ensures
            r.message@ == prefix@ + detail@,
    {
        let mut message = String::from_str(prefix);
        message.append(detail);
        KindleError { message }
    }

    /// Builds an error with the given message.
    pub fn plain(message: &str) -> (r: KindleError)
        ensures
            r.message@ == message@,
    {
        KindleError { message: String::from_str(message) }
    }

    /// The message, as `Display` would show it.
    pub fn to_string(&self) -> (r: String)
        ensures
            r@ == self.message@,
    {
        self.message.clone()
    }
}

} // verus!
