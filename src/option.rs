use vstd::prelude::*;

verus! {

/// Observation of the value carried by an [`Option`], which is then passed on.
pub trait OptionInspector<T> {
    /// The optional value that `self` stands for.
    spec fn as_option(self) -> Option<T>;

    /// Calls `f` on a reference to the contained [`Some`] value, then returns the
    /// option unchanged. On [`None`] the callback is not called: its precondition
    /// is owed only on the contained value.
    fn inspect<F: FnMut(&T)>(self, f: F) -> (r: Option<T>)
        requires
            self.as_option() is Some ==> f.requires((&self.as_option()->0,)),
        ensures
            r == self.as_option(),
            self.as_option() is Some ==> f.ensures((&self.as_option()->0,), ()),
    ;
}

impl<T> OptionInspector<T> for Option<T> {
    open spec fn as_option(self) -> Option<T> {
        self
    }

    fn inspect<F: FnMut(&T)>(self, f: F) -> (r: Option<T>)
        ensures
            r == self,
    {
        let mut f = f;
        match self {
            Some(v) => {
                f(&v);
                Some(v)
            },
            None => None,
        }
    }
}

} // verus!
