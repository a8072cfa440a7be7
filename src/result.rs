use vstd::prelude::*;

verus! {

/// Observation of the value carried by either variant of a [`Result`], which is
/// then passed on.
pub trait ResultInspector<T, E> {
    /// The result that `self` stands for.
    spec fn as_result(self) -> Result<T, E>;

    /// Calls `f` on a reference to the contained [`Ok`] value, then returns the
    /// result unchanged. On [`Err`] the callback is not called: its precondition
    /// is owed only on the success value.
    fn inspect<F: FnMut(&T)>(self, f: F) -> (r: Result<T, E>)
        requires
            self.as_result() is Ok ==> f.requires((&self.as_result()->Ok_0,)),
        ensures
            r == self.as_result(),
            self.as_result() is Ok ==> f.ensures((&self.as_result()->Ok_0,), ()),
    ;

    /// Calls `f` on a reference to the contained [`Err`] value, then returns the
    /// result unchanged. On [`Ok`] the callback is not called: its precondition
    /// is owed only on the error value.
    fn inspect_err<F: FnMut(&E)>(self, f: F) -> (r: Result<T, E>)
        requires
            self.as_result() is Err ==> f.requires((&self.as_result()->Err_0,)),
        ensures
            r == self.as_result(),
            self.as_result() is Err ==> f.ensures((&self.as_result()->Err_0,), ()),
    ;
}

impl<T, E> ResultInspector<T, E> for Result<T, E> {
    open spec fn as_result(self) -> Result<T, E> {
        self
    }

    fn inspect<F: FnMut(&T)>(self, f: F) -> (r: Result<T, E>)
        ensures
            r == self,
    {
        let mut f = f;
        match self {
            Ok(v) => {
                f(&v);
                Ok(v)
            },
            Err(e) => Err(e),
        }
    }

    fn inspect_err<F: FnMut(&E)>(self, f: F) -> (r: Result<T, E>)
        ensures
            r == self,
    {
        let mut f = f;
        match self {
            Ok(v) => Ok(v),
            Err(e) => {
                f(&e);
                Err(e)
            },
        }
    }
}

} // verus!
