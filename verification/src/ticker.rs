//! The periodic ticker: a display value alternating between two literal
//! states, each held for a fixed interval. It feeds its own independent
//! signal and never touches task data; the timer that paces it lives outside
//! the library, which only decides the next state and its label.

use vstd::prelude::*;

verus! {

/// One of the ticker's two display states.
#[derive(Clone, Copy, PartialEq, Eq, Structural, Debug)]
pub enum Tick {
    Tik,
    Tok,
}

impl Tick {
    /// The other state.
    pub open spec fn spec_flip(self) -> Tick {
        match self {
            Tick::Tik => Tick::Tok,
            Tick::Tok => Tick::Tik,
        }
    }

    /// Step to the other state: the ticker strictly alternates, and two
    /// steps lead back to where it was.
    pub fn flip(self) -> (r: Tick)
        ensures
            r == self.spec_flip(),
            r != self,
            r.spec_flip() == self,
    {
        match self {
            Tick::Tik => Tick::Tok,
            Tick::Tok => Tick::Tik,
        }
    }

    /// The state's display text.
    pub open spec fn spec_label(self) -> Seq<char> {
        match self {
            Tick::Tik => "tik"@,
            Tick::Tok => "tok"@,
        }
    }

    /// The state's display text.
    pub fn label(self) -> (r: &'static str)
        ensures
            r@ == self.spec_label(),
    {
        match self {
            Tick::Tik => "tik",
            Tick::Tok => "tok",
        }
    }
}

} // verus!
