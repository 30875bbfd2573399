use vstd::prelude::*;
use crate::errors::{parse_error, Error};
use crate::text::{lowercase, lowercase_chars, spells};

verus! {

/// The scenes that come with the tracer.
#[derive(Clone, Copy, Debug, PartialEq, Eq, Structural)]
pub enum Worlds {
    /// Three balls on a large one.
    ThreeBalls,
    /// Many small balls scattered round three large ones.
    Random,
}

impl Worlds {
    /// The name that selects this scene.
    pub open spec fn name(self) -> Seq<char> {
        match self {
            Worlds::ThreeBalls => "threeballs"@,
            Worlds::Random => "random"@,
        }
    }

    /// The scene that `s` names, in upper or lower case.
    pub fn from_str(s: &str) -> (r: Result<Worlds, Error>)
        ensures
            match r {
                Ok(world) => lowercase(s@) == world.name(),
                Err(e) => {
                    &&& lowercase(s@) != Worlds::ThreeBalls.name()
                    &&& lowercase(s@) != Worlds::Random.name()
                    &&& e.is_parse_error(s@, "Must be 'threeballs' or 'random'."@)
                },
            },
    {
        let lower = lowercase_chars(s);
        if spells(&lower, "threeballs") {
            Ok(Worlds::ThreeBalls)
        } else if spells(&lower, "random") {
            Ok(Worlds::Random)
        } else {
            Err(parse_error(s, "Must be 'threeballs' or 'random'."))
        }
    }
}

impl core::str::FromStr for Worlds {
    type Err = Error;

    /// The scene that `s` names, in upper or lower case.
    fn from_str(s: &str) -> (r: Result<Worlds, Error>)
        ensures
            match r {
                Ok(world) => lowercase(s@) == world.name(),
                Err(e) => {
                    &&& lowercase(s@) != Worlds::ThreeBalls.name()
                    &&& lowercase(s@) != Worlds::Random.name()
                    &&& e.is_parse_error(s@, "Must be 'threeballs' or 'random'."@)
                },
            },
    {
        Worlds::from_str(s)
    }
}

} // verus!
