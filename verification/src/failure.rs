use vstd::prelude::*;

verus! {

/// The one error kind of the command surface: an underlying OS or
/// windowing-API failure, carried as the descriptive text the OS
/// reported. Its view is that text.
pub struct OperationError {
    message: String,
}

impl View for OperationError {
    type V = Seq<char>;

    closed spec fn view(&self) -> Seq<char> {
        self.message@
    }
}

impl OperationError {
    /// Wrap the descriptive text of an underlying OS failure, unchanged.
    pub fn from_os_error(text: String) -> (r: OperationError)
        ensures
            r@ == text@,
    {
        OperationError { message: text }
    }

    /// The stored failure description, exactly as the OS reported it.
    pub fn description(&self) -> (r: &str)
        ensures
            r@ == self@,
    {
        self.message.as_str()
    }
}

} // verus!
