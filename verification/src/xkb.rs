//! The xkb keysym model: the integer code a key press resolves to.
//!
//! Name lookup and text conversion of keysyms live in the native xkbcommon
//! library and are the embedder's task; here the keysym itself is modelled
//! together with its validity rule.

use vstd::prelude::*;

verus! {

/// An xkb keysym: a number representing a symbol a key press generates.
///
/// The values `0` (`NoSymbol`) and `0xffffffff` (`VoidSymbol`) are
/// reserved and do not name a symbol.
#[derive(Debug, Clone, PartialEq, Eq, Structural)]
pub struct Keysym(pub u32);

/// Flags controlling how a keysym is looked up by name.
#[derive(Debug, Clone, PartialEq, Eq, Structural)]
pub enum NameFlags {
    /// Case-sensitive name search
    CaseSensitive,
    /// Case-insensitive name search
    CaseInsensitive,
}

impl Keysym {
    /// Whether this keysym names a symbol, i.e. is neither `NoSymbol` nor
    /// `VoidSymbol`.
    pub fn is_valid(&self) -> (r: bool)
        ensures
            r == (self.0 != 0 && self.0 != 0xffffffffu32),
    {
        self.0 != 0 && self.0 != 0xffffffff
    }
}

/// An error returned from attempting to create a keysym.
#[derive(Debug, Clone, PartialEq, Eq, Structural)]
pub struct KeysymParseError;

impl From<u32> for Keysym {
    /// The keysym with the given code.
    fn from(value: u32) -> (r: Self) {
        Keysym(value)
    }
}

impl vstd::std_specs::convert::FromSpecImpl<u32> for Keysym {
    open spec fn obeys_from_spec() -> bool {
        true
    }

    open spec fn from_spec(v: u32) -> Keysym {
        Keysym(v)
    }
}

} // verus!
