//! The machine word and the activation signal carried over data wires.
//!
//! A word is a signed 32-bit integer.  An activation is a single-bit signal
//! conveyed as a word: `true` is the all-ones word (`-1` as a signed value),
//! `false` is `0`; in the other direction any nonzero word reads as Active.

use vstd::prelude::*;

verus! {

pub type Word = i32;

#[derive(Clone, Copy, PartialEq, Eq, Debug, Hash, Structural)]
pub enum Activation {
    Inactive,
    Active,
}

/// The word that carries a boolean over a data wire: all ones for `true`,
/// zero for `false`.
pub open spec fn spec_bool_to_word(b: bool) -> Word {
    if b {
        -1i32
    } else {
        0i32
    }
}

/// How a word is read as an activation signal: any nonzero word is Active.
pub open spec fn spec_word_to_activation(w: Word) -> Activation {
    if w != 0 {
        Activation::Active
    } else {
        Activation::Inactive
    }
}

pub trait ToWord {
    spec fn spec_to_word(&self) -> Word;

    fn to_word(&self) -> (w: Word)
        ensures
            w == self.spec_to_word(),
    ;
}

impl ToWord for bool {
    open spec fn spec_to_word(&self) -> Word {
        spec_bool_to_word(*self)
    }

    fn to_word(&self) -> (w: Word) {
        if *self {
            -1
        } else {
            0
        }
    }
}

pub trait ToActivation {
    spec fn spec_to_activation(&self) -> Activation;

    fn to_activation(&self) -> (a: Activation)
        ensures
            a == self.spec_to_activation(),
    ;
}

impl ToActivation for Word {
    open spec fn spec_to_activation(&self) -> Activation {
        spec_word_to_activation(*self)
    }

    fn to_activation(&self) -> (a: Activation) {
        if *self != 0 {
            Activation::Active
        } else {
            Activation::Inactive
        }
    }
}

} // verus!
