//! Changing the error of a result.
use vstd::prelude::*;

verus! {

/// Changes the error of a result into the one that is asked for.
pub trait AutoMapError<T>: Sized {
    spec fn maps_to(self, r: T) -> bool;

    /// Maps the error to the desired type by way of `Into`.
    fn auto_map_err(self) -> (r: T)
        ensures
            self.maps_to(r),
    ;
}

impl<T, U: Into<V>, V> AutoMapError<Result<T, V>> for Result<T, U> {
    open spec fn maps_to(self, r: Result<T, V>) -> bool {
        match (self, r) {
            (Ok(value), Ok(kept)) => value == kept,
            (Err(error), Err(mapped)) => call_ensures(U::into, (error,), mapped),
            _ => false,
        }
    }

    fn auto_map_err(self) -> (r: Result<T, V>) {
        match self {
            Ok(value) => Ok(value),
            Err(error) => Err(error.into()),
        }
    }
}

} // verus!
