use vstd::prelude::*;

verus! {

/// An error reported by the storage engine or by the binding itself,
/// carried as its message.
#[derive(Debug)]
pub struct Error {
    message: String,
}

impl View for Error {
    type V = Seq<char>;

    /// The error's message.
    closed spec fn view(&self) -> Seq<char> {
        self.message@
    }
}

impl Error {
    /// Builds an error that carries `message`.
    pub fn new(message: String) -> (e: Error)
        ensures
            e@ == message@,
    {
        Error { message }
    }

    /// The error's message.
    pub fn into_string(self) -> (s: String)
        ensures
            s@ == self@,
    {
        self.message
    }

    /// The error's message, borrowed.
    pub fn as_str(&self) -> (s: &str)
        ensures
            s@ == self@,
    {
        self.message.as_str()
    }
}

} // verus!
