use vstd::prelude::*;

verus! {

broadcast use vstd::string::to_string_from_display_ensures_for_str;

/// A failure described by a message alone.
#[derive(Debug)]
pub struct StrError(pub String);

impl StrError {
    /// An error carrying `text` as its message.
    pub fn new(text: &str) -> (r: StrError)
        ensures
            r.0@ == text@,
    {
        StrError(text.to_string())
    }

    /// The message of the error.
    pub fn message(&self) -> (r: String)
        ensures
            r@ == self.0@,
    {
        self.0.as_str().to_string()
    }
}

} // verus!
