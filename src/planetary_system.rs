use vstd::prelude::*;

use crate::error::GameError;

verus! {

/// How many planets a system gets from a sampled count that was truncated
/// toward zero: a count of zero or below gives none.
pub fn planet_count(truncated_sample: i32) -> (r: usize)
    ensures
        r as int == if truncated_sample <= 0 {
            0
        } else {
            truncated_sample as int
        },
{
    if truncated_sample <= 0 {
        0
    } else {
        truncated_sample as usize
    }
}

/// The first position whose flag is set, if any.
pub fn first_flagged(flags: &Vec<bool>) -> (r: Option<usize>)
    ensures
        match r {
            Some(i) => i < flags@.len() && flags@[i as int] && forall|k: int|
                0 <= k < i ==> !flags@[k],
            None => forall|k: int| 0 <= k < flags@.len() ==> !flags@[k],
        },
{
    let mut i: usize = 0;
    while i < flags.len()
        invariant
            i <= flags@.len(),
            forall|k: int| 0 <= k < i ==> !flags@[k],
        decreases flags@.len() - i,
    {
        if flags[i] {
            return Some(i);
        }
        i += 1;
    }
    None
}

/// A star with its planets, innermost first. The bodies themselves are
/// supplied by the caller; this type keeps their order and answers the
/// queries that depend on how many planets there are.
#[derive(Debug, Clone)]
pub struct PlanetarySystem<S, P> {
    star: S,
    planets: Vec<P>,
}

impl<S, P> PlanetarySystem<S, P> {
    pub closed spec fn star_spec(&self) -> S {
        self.star
    }

    pub closed spec fn planets_spec(&self) -> Seq<P> {
        self.planets@
    }

    /// A system with no planets yet.
    pub fn new(star: S) -> (r: Self)
        ensures
            r.star_spec() == star,
            r.planets_spec() == Seq::<P>::empty(),
    {
        PlanetarySystem { star, planets: Vec::new() }
    }

    /// Adds a planet beyond the current outermost one.
    pub fn push_planet(&mut self, planet: P)
        ensures
            final(self).star_spec() == old(self).star_spec(),
            final(self).planets_spec() == old(self).planets_spec().push(planet),
    {
        self.planets.push(planet);
    }

    pub fn get_n_planets(&self) -> (r: usize)
        ensures
            r == self.planets_spec().len(),
    {
        self.planets.len()
    }

    pub fn get_star(&self) -> (r: &S)
        ensures
            *r == self.star_spec(),
    {
        &self.star
    }

    pub fn planets(&self) -> (r: &Vec<P>)
        ensures
            r@ == self.planets_spec(),
    {
        &self.planets
    }

    /// The innermost planet, which seeds the orbit recurrence; an error
    /// when there are no planets.
    pub fn first_planet(&self) -> (r: Result<&P, GameError>)
        ensures
            self.planets_spec().len() == 0 ==> r == Err::<&P, GameError>(GameError::NoPlanets),
            self.planets_spec().len() > 0 ==> r == Ok::<&P, GameError>(&self.planets_spec()[0]),
    {
        if self.planets.len() == 0 {
            Err(GameError::NoPlanets)
        } else {
            Ok(&self.planets[0])
        }
    }

    /// The outermost planet, whose orbit gives the system's radius; an
    /// error when there are no planets.
    pub fn last_planet(&self) -> (r: Result<&P, GameError>)
        ensures
            self.planets_spec().len() == 0 ==> r == Err::<&P, GameError>(GameError::NoPlanets),
            self.planets_spec().len() > 0 ==> r == Ok::<&P, GameError>(&self.planets_spec().last()),
    {
        if self.planets.len() == 0 {
            Err(GameError::NoPlanets)
        } else {
            Ok(&self.planets[self.planets.len() - 1])
        }
    }
}

} // verus!
