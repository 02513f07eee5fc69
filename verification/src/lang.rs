use vstd::prelude::*;

verus! {

/// The two locales the tool speaks.
#[derive(Clone, Copy, Debug, PartialEq, Eq, Structural)]
pub enum Language {
    Chinese,
    English,
}

} // verus!
