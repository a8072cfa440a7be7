use vstd::prelude::*;

use crate::option::OptionInspector;
use crate::result::ResultInspector;

verus! {

/// Inspecting an option, whatever the callback (a no-op one included), returns a
/// value equal to the option inspected.
pub proof fn lemma_option_inspect_is_identity<T>(x: Option<T>)
    ensures
        x.as_option() == x,
{
}

/// Inspecting a result, on either variant and whatever the callback (a no-op one
/// included), returns a value equal to the result inspected.
pub proof fn lemma_result_inspect_is_identity<T, E>(x: Result<T, E>)
    ensures
        x.as_result() == x,
{
}

/// Inspecting an option twice, first with `f` and then with `g`: the option that
/// the first inspection passes on lets `g` be called exactly where `f` was, on
/// the same value, and the second inspection returns the original option.
pub proof fn lemma_option_inspect_twice<T, F: FnMut(&T), G: FnMut(&T)>(x: Option<T>, f: F, g: G)
    requires
        x is Some ==> f.requires((&x->0,)),
        x is Some ==> g.requires((&x->0,)),
    ensures
        x.as_option() is Some <==> x is Some,
        x.as_option() is Some ==> x.as_option()->0 == x->0,
        x.as_option() is Some ==> g.requires((&x.as_option()->0,)),
        x.as_option().as_option() == x,
{
}

/// Inspecting a result twice, first with `f` and then with `g`, each on the
/// success value or each on the error value: the result that the first
/// inspection passes on lets `g` be called exactly where `f` was, on the same
/// value, and the second inspection returns the original result.
pub proof fn lemma_result_inspect_twice<T, E, F: FnMut(&T), G: FnMut(&T), H: FnMut(&E), K: FnMut(&E)>(
    x: Result<T, E>,
    f: F,
    g: G,
    h: H,
    k: K,
)
    requires
        x is Ok ==> f.requires((&x->Ok_0,)),
        x is Ok ==> g.requires((&x->Ok_0,)),
        x is Err ==> h.requires((&x->Err_0,)),
        x is Err ==> k.requires((&x->Err_0,)),
    ensures
        x.as_result() is Ok <==> x is Ok,
        x.as_result() is Ok ==> x.as_result()->Ok_0 == x->Ok_0,
        x.as_result() is Err ==> x.as_result()->Err_0 == x->Err_0,
        x.as_result() is Ok ==> g.requires((&x.as_result()->Ok_0,)),
        x.as_result() is Err ==> k.requires((&x.as_result()->Err_0,)),
        x.as_result().as_result() == x,
{
}

} // verus!
