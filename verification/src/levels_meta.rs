//! The catalog of shipped levels: their display names and whether they are
//! finished enough to list by default. The choreography data itself is
//! content, built outside the engine.

use vstd::prelude::*;

verus! {

/// The shipped levels, sorted by difficulty (easy to hard).
#[derive(Clone, Copy, PartialEq, Eq, Structural, Debug)]
pub enum EparLevel {
    MoonlightSonata,
    FriendlyFaithPlate,
    Inferno,
    Smoke,
    Granite,
    Isolation,
    Kocmoc,
    Sparkler,
    Firestarter,
}

/// The display name of a level.
pub open spec fn spec_level_name(l: EparLevel) -> Seq<char> {
    match l {
        EparLevel::MoonlightSonata => "Moonlight Sonata (Meganeko Remix, Final Drop)"@,
        EparLevel::FriendlyFaithPlate => "Friendly Faith Plate"@,
        EparLevel::Smoke => "Smoke"@,
        EparLevel::Granite => "Granite"@,
        EparLevel::Inferno => "Inferno"@,
        EparLevel::Isolation => "Isolation (LIMBO Remix)"@,
        EparLevel::Kocmoc => "KOCMOC (Albee Remix)"@,
        EparLevel::Sparkler => "Sparkler"@,
        EparLevel::Firestarter => "Firestarter"@,
    }
}

/// Whether a level is finished and listed by default.
pub open spec fn spec_level_finished(l: EparLevel) -> bool {
    match l {
        EparLevel::MoonlightSonata => true,
        EparLevel::Smoke => true,
        EparLevel::Kocmoc => true,
        _ => false,
    }
}

impl EparLevel {
    /// The level's display name.
    pub fn name(&self) -> (r: &'static str)
        ensures
            r@ == spec_level_name(*self),
    {
        match *self {
            EparLevel::MoonlightSonata => "Moonlight Sonata (Meganeko Remix, Final Drop)",
            EparLevel::FriendlyFaithPlate => "Friendly Faith Plate",
            EparLevel::Smoke => "Smoke",
            EparLevel::Granite => "Granite",
            EparLevel::Inferno => "Inferno",
            EparLevel::Isolation => "Isolation (LIMBO Remix)",
            EparLevel::Kocmoc => "KOCMOC (Albee Remix)",
            EparLevel::Sparkler => "Sparkler",
            EparLevel::Firestarter => "Firestarter",
        }
    }

    /// Whether the level is finished; used to filter the level select.
    pub fn finished(&self) -> (r: bool)
        ensures
            r == spec_level_finished(*self),
    {
        match *self {
            EparLevel::MoonlightSonata => true,
            EparLevel::Smoke => true,
            EparLevel::Kocmoc => true,
            _ => false,
        }
    }

    /// Every level, in difficulty order.
    pub fn all() -> (r: Vec<EparLevel>)
        ensures
            r@ == seq![
                EparLevel::MoonlightSonata,
                EparLevel::FriendlyFaithPlate,
                EparLevel::Inferno,
                EparLevel::Smoke,
                EparLevel::Granite,
                EparLevel::Isolation,
                EparLevel::Kocmoc,
                EparLevel::Sparkler,
                EparLevel::Firestarter,
            ],
    {
        let mut v: Vec<EparLevel> = Vec::new();
        v.push(EparLevel::MoonlightSonata);
        v.push(EparLevel::FriendlyFaithPlate);
        v.push(EparLevel::Inferno);
        v.push(EparLevel::Smoke);
        v.push(EparLevel::Granite);
        v.push(EparLevel::Isolation);
        v.push(EparLevel::Kocmoc);
        v.push(EparLevel::Sparkler);
        v.push(EparLevel::Firestarter);
        proof {
            assert(v@ =~= seq![
                EparLevel::MoonlightSonata,
                EparLevel::FriendlyFaithPlate,
                EparLevel::Inferno,
                EparLevel::Smoke,
                EparLevel::Granite,
                EparLevel::Isolation,
                EparLevel::Kocmoc,
                EparLevel::Sparkler,
                EparLevel::Firestarter,
            ]);
        }
        v
    }
}

} // verus!
