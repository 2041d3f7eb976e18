use vstd::prelude::*;

verus! {

/// An error cause that can render itself to a stable machine-readable string.
///
/// This trait is meant to be implemented by error types outside this crate as
/// well; `spec_string` names the rendered form that `error_string` must return.
pub trait ToStringError {
    /// The rendered form of this error.
    spec fn spec_string(&self) -> Seq<char>;

    /// Render this error to its stable string form.
    fn error_string(&self) -> (r: String)
        ensures
            r@ == self.spec_string(),
    ;
}

/// A wrapped lower-level fault, held as its rendered message so that the
/// error taxonomy stays closed and uniformly serializable.
#[derive(Debug, PartialEq, Eq)]
pub struct SerializableError {
    pub message: String,
}

impl SerializableError {
    /// Wrap any renderable error cause as its rendered message.
    pub fn wrap<E: ToStringError>(e: &E) -> (r: SerializableError)
        ensures
            r.message@ == e.spec_string(),
    {
        SerializableError { message: e.error_string() }
    }

    /// The single string token this error serializes to.
    pub fn serialized(&self) -> (r: String)
        ensures
            r@ == self.message@,
    {
        self.message.clone()
    }
}

} // verus!
