//! The make-up of the Ara-kees planet: a type D planet that generates
//! Oxygen, Hydrogen and Carbon and combines nothing.

use vstd::prelude::*;

verus! {

/// The planet types of the game, each with its own rule constraints.
#[derive(Debug, Clone, Copy, PartialEq, Eq, Structural)]
pub enum PlanetKind {
    A,
    B,
    C,
    D,
}

/// The basic resources of the game.
#[derive(Debug, Clone, Copy, PartialEq, Eq, Structural)]
pub enum BasicResource {
    Oxygen,
    Hydrogen,
    Carbon,
    Silicon,
}

/// The complex resources of the game.
#[derive(Debug, Clone, Copy, PartialEq, Eq, Structural)]
pub enum ComplexResource {
    Diamond,
    Water,
    Life,
    Robot,
    Dolphin,
    AIPartner,
}

/// What a planet is built from: its type, the basic resources it can
/// generate and the complex resources it can combine.
#[derive(Debug)]
pub struct PlanetBlueprint {
    pub kind: PlanetKind,
    pub gen_rules: Vec<BasicResource>,
    pub comb_rules: Vec<ComplexResource>,
}

/// The generation rules of the Ara-kees planet, in the order they are given.
pub open spec fn ara_kees_gen_rules() -> Seq<BasicResource> {
    seq![BasicResource::Oxygen, BasicResource::Hydrogen, BasicResource::Carbon]
}

/// The make-up of the Ara-kees planet: type D, generating Oxygen, Hydrogen
/// and Carbon, with no combination rules.
pub fn planet_blueprint() -> (b: PlanetBlueprint)
    ensures
        b.kind == PlanetKind::D,
        b.gen_rules@ == ara_kees_gen_rules(),
        b.comb_rules@ == Seq::<ComplexResource>::empty(),
{
    let mut gen_rules: Vec<BasicResource> = Vec::new();
    gen_rules.push(BasicResource::Oxygen);
    gen_rules.push(BasicResource::Hydrogen);
    gen_rules.push(BasicResource::Carbon);
    let comb_rules: Vec<ComplexResource> = Vec::new();
    assert(gen_rules@ =~= ara_kees_gen_rules());
    PlanetBlueprint { kind: PlanetKind::D, gen_rules, comb_rules }
}

/// The Ara-kees planet generates exactly Oxygen, Hydrogen and Carbon, each
/// once, and never Silicon.
pub proof fn lemma_generated_resources(r: BasicResource)
    ensures
        ara_kees_gen_rules().contains(r) <==> r != BasicResource::Silicon,
        ara_kees_gen_rules().no_duplicates(),
{
    assert(ara_kees_gen_rules()[0] == BasicResource::Oxygen);
    assert(ara_kees_gen_rules()[1] == BasicResource::Hydrogen);
    assert(ara_kees_gen_rules()[2] == BasicResource::Carbon);
}

} // verus!
