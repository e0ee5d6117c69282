//! Generators: the instruments and controllers that can own a lane of notes.

use vstd::prelude::*;

verus! {

/// What a generator is to the contracts: its identifier and its name.
pub ghost struct GeneratorView {
    pub id: u64,
    pub name: Seq<char>,
}

#[derive(Debug, PartialEq, Eq)]
pub struct Instrument {
    pub id: u64,
    pub name: String,
}

#[derive(Debug, PartialEq, Eq)]
pub struct Controller {
    pub id: u64,
    pub name: String,
}

impl View for Instrument {
    type V = GeneratorView;

    open spec fn view(&self) -> GeneratorView {
        GeneratorView { id: self.id, name: self.name@ }
    }
}

impl View for Controller {
    type V = GeneratorView;

    open spec fn view(&self) -> GeneratorView {
        GeneratorView { id: self.id, name: self.name@ }
    }
}

impl Clone for Instrument {
    fn clone(&self) -> (r: Self)
        ensures
            r@ == self@,
    {
        Instrument { id: self.id, name: self.name.clone() }
    }
}

impl Clone for Controller {
    fn clone(&self) -> (r: Self)
        ensures
            r@ == self@,
    {
        Controller { id: self.id, name: self.name.clone() }
    }
}

} // verus!
