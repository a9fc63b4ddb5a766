//! Fields where the default value of their type stands for "absent".

use vstd::prelude::*;
use vstd::std_specs::cmp::PartialEqSpec;

verus! {

/// Whether `d` is a value `T::default()` can return.
pub open spec fn is_default<T: Default>(d: T) -> bool {
    call_ensures(T::default, (), d)
}

/// The value written for an optional field whose absence is written as the default value of its
/// type: the value itself, or `T::default()` when absent.
pub fn serialize<T: Default>(to_serialize: Option<T>) -> (res: T)
    ensures
        match to_serialize {
            Some(v) => res == v,
            None => is_default(res),
        },
{
    match to_serialize {
        Some(v) => v,
        None => {
            let default = T::default;
            default()
        },
    }
}

/// The optional value read from a field whose absence is written as the default value of its
/// type: absent exactly when the value equals `T::default()`.
pub fn deserialize<T: Default + PartialEq>(value: T) -> (res: Option<T>)
    ensures
        T::obeys_eq_spec() ==> match res {
            None => exists|d: T| is_default(d) && value.eq_spec(&d),
            Some(v) => v == value && exists|d: T| is_default(d) && !value.eq_spec(&d),
        },
{
    let default = T::default;
    let d = default();
    assert(is_default(d));
    if value == d {
        None
    } else {
        Some(value)
    }
}

/// Reading back what was written gives the value back, unless the value is `Some` of the default,
/// which is written exactly as an absent value is; for every type whose `==` is equality and whose
/// `default()` always returns the same value.
pub proof fn lemma_default_to_none_roundtrip<T: Default + PartialEq>(
    x: Option<T>,
    written: T,
    read: Option<T>,
)
    requires
        T::obeys_eq_spec(),
        forall|a: T, b: T| #[trigger] a.eq_spec(&b) <==> a == b,
        forall|d1: T, d2: T| is_default(d1) && is_default(d2) ==> d1 == d2,
        x matches Some(v) ==> !is_default(v),
        call_ensures(serialize::<T>, (x,), written),
        call_ensures(deserialize::<T>, (written,), read),
    ensures
        read == x,
{
}

/// Writing what was read gives back the value that was read, for every type whose `==` is
/// equality and whose `default()` always returns the same value.
pub proof fn lemma_default_to_none_rewrite<T: Default + PartialEq>(
    value: T,
    read: Option<T>,
    written: T,
)
    requires
        T::obeys_eq_spec(),
        forall|a: T, b: T| #[trigger] a.eq_spec(&b) <==> a == b,
        forall|d1: T, d2: T| is_default(d1) && is_default(d2) ==> d1 == d2,
        call_ensures(deserialize::<T>, (value,), read),
        call_ensures(serialize::<T>, (read,), written),
    ensures
        written == value,
{
}

} // verus!
