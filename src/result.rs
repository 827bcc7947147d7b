use vstd::prelude::*;

verus! {

/// A displayable error message produced by a staged field.
#[derive(Debug, Clone)]
pub struct GuiError {
    message: String,
}

impl GuiError {
    /// The text this error carries.
    pub closed spec fn spec_message(&self) -> Seq<char> {
        self.message@
    }

    pub fn new(message: String) -> (r: Self)
        ensures
            r.spec_message() == message@,
    {
        GuiError { message }
    }

    pub fn message(&self) -> (r: &str)
        ensures
            r@ == self.spec_message(),
    {
        self.message.as_str()
    }
}

} // verus!
