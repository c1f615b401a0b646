//! What the keys of a keyboard's function row do to a setting.

use vstd::prelude::*;

verus! {

/// A change of a setting.
#[derive(Debug, PartialEq, Eq)]
pub enum Change<T> {
    /// Raise the setting by this much.
    Add(T),
    /// Lower the setting by this much.
    Sub(T),
    /// Set the setting to this.
    Absolute(T),
}

impl<T: Copy> Clone for Change<T> {
    fn clone(&self) -> (copy: Self)
        ensures
            copy == *self,
    {
        *self
    }
}

impl<T: Copy> Copy for Change<T> {

}

/// A setting with a key that raises it and a key that lowers it.
pub trait FunctionKey<E> {
    fn increase() -> Result<(), E>;

    fn decrease() -> Result<(), E>;
}

/// A setting with a key that switches it on and off.
pub trait ToggleKey<E> {
    fn toggle(&mut self) -> (done: Result<(), E>);
}

/// A setting that can be changed by an amount or set to a value.
pub trait Changeable<T, E> {
    fn change(&mut self, change: Change<T>) -> Result<(), E>;
}

} // verus!
