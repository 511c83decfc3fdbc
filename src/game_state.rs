use vstd::prelude::*;

use crate::building::{building_name, BuildingType, MenuColor};
use crate::colony::{completed_by_tick, construction_after_tick, Colony};
use crate::construction_process::fresh_process;
use crate::percent::{decimal, percentage_of};
use crate::error::GameError;
use crate::research::{
    completed_in, eligible, group_status, in_field, status_of, Research, ResearchField,
    ResearchGraph, ResearchView,
};
use crate::ship_module::ShipModuleType;

verus! {

/// Construction progress a colony makes per tick.
pub const CONSTRUCTION_SPEED: u32 = 1;

/// Progress a started research makes per tick.
pub const RESEARCH_SPEED: u32 = 1;

/// No two colonies share a name.
pub open spec fn unique_colony_names(cs: Seq<Colony>) -> bool {
    forall|i: int, j: int| 0 <= i < j < cs.len() ==> cs[i].name_spec() != cs[j].name_spec()
}

/// The aggregate root: research catalog, colonies and ship-module catalog.
#[derive(Debug)]
pub struct GameState {
    research: ResearchGraph,
    colonies: Vec<Colony>,
    ship_module_types: Vec<ShipModuleType>,
}

impl GameState {
    pub closed spec fn research_spec(&self) -> ResearchGraph {
        self.research
    }

    pub closed spec fn colonies_spec(&self) -> Seq<Colony> {
        self.colonies@
    }

    pub closed spec fn module_types_spec(&self) -> Seq<(Seq<char>, MenuColor)> {
        self.ship_module_types@.map_values(|m: ShipModuleType| m@)
    }

    pub open spec fn researches(&self) -> Seq<ResearchView> {
        self.research_spec().researches_spec()
    }

    pub open spec fn wf(&self) -> bool {
        &&& self.research_spec().wf()
        &&& unique_colony_names(self.colonies_spec())
        &&& forall|i: int|
            0 <= i < self.colonies_spec().len() ==> (#[trigger] self.colonies_spec()[i]).wf()
    }

    /// Position of the colony called `name`.
    pub open spec fn has_colony_at(&self, name: Seq<char>, i: int) -> bool {
        0 <= i < self.colonies_spec().len() && self.colonies_spec()[i].name_spec() == name
    }

    pub open spec fn contains_colony(&self, name: Seq<char>) -> bool {
        exists|i: int| self.has_colony_at(name, i)
    }

    pub fn new(
        research: ResearchGraph,
        colonies: Vec<Colony>,
        ship_module_types: Vec<ShipModuleType>,
    ) -> (r: GameState)
        requires
            research.wf(),
            unique_colony_names(colonies@),
            forall|i: int| 0 <= i < colonies@.len() ==> (#[trigger] colonies@[i]).wf(),
        ensures
            r.wf(),
            r.research_spec() == research,
            r.colonies_spec() == colonies@,
            r.module_types_spec() == ship_module_types@.map_values(|m: ShipModuleType| m@),
    {
        GameState { research, colonies, ship_module_types }
    }

    /// Advances every colony's construction by `CONSTRUCTION_SPEED` and
    /// every started research by `RESEARCH_SPEED`.
    pub fn tick(&mut self)
        requires
            old(self).wf(),
        ensures
            final(self).wf(),
            final(self).module_types_spec() == old(self).module_types_spec(),
            final(self).research_spec().fields_spec() == old(self).research_spec().fields_spec(),
            final(self).researches().len() == old(self).researches().len(),
            forall|i: int|
                0 <= i < old(self).researches().len() ==> (#[trigger] final(self).researches()[i])
                    == old(self).researches()[i].ticked(RESEARCH_SPEED),
            final(self).colonies_spec().len() == old(self).colonies_spec().len(),
            forall|i: int|
                #![trigger final(self).colonies_spec()[i]]
                0 <= i < old(self).colonies_spec().len() ==> {
                    let before = old(self).colonies_spec()[i];
                    let after = final(self).colonies_spec()[i];
                    &&& after.name_spec() == before.name_spec()
                    &&& after.buildings_spec() == before.buildings_after_tick(CONSTRUCTION_SPEED)
                    &&& after.construction_spec() == construction_after_tick(
                        before.construction_spec(),
                        CONSTRUCTION_SPEED,
                    )
                },
    {
        let ghost before = self.colonies@;
        let mut i: usize = 0;
        while i < self.colonies.len()
            invariant
                i <= self.colonies@.len(),
                self.colonies@.len() == before.len(),
                self.research == old(self).research,
                self.ship_module_types == old(self).ship_module_types,
                forall|k: int| 0 <= k < before.len() ==> (#[trigger] before[k]).wf(),
                forall|k: int|
                    #![trigger self.colonies@[k]]
                    0 <= k < i ==> {
                        &&& self.colonies@[k].wf()
                        &&& self.colonies@[k].name_spec() == before[k].name_spec()
                        &&& self.colonies@[k].buildings_spec() == before[k].buildings_after_tick(
                            CONSTRUCTION_SPEED,
                        )
                        &&& self.colonies@[k].construction_spec() == construction_after_tick(
                            before[k].construction_spec(),
                            CONSTRUCTION_SPEED,
                        )
                    },
                forall|k: int| i <= k < before.len() ==> #[trigger] self.colonies@[k] == before[k],
            decreases self.colonies@.len() - i,
        {
            let _ = self.colonies[i].tick(CONSTRUCTION_SPEED);
            i += 1;
        }
        self.research.tick(RESEARCH_SPEED);
        proof {
            let cs = self.colonies@;
            assert forall|a: int, b: int| 0 <= a < b < cs.len() implies cs[a].name_spec()
                != cs[b].name_spec() by {
                assert(cs[a].name_spec() == before[a].name_spec());
                assert(cs[b].name_spec() == before[b].name_spec());
            }
        }
    }

    /// Position of the colony called `name`, if any.
    fn find_colony(&self, name: &String) -> (r: Option<usize>)
        ensures
            match r {
                Some(i) => self.has_colony_at(name@, i as int),
                None => !self.contains_colony(name@),
            },
    {
        let mut i: usize = 0;
        while i < self.colonies.len()
            invariant
                i <= self.colonies@.len(),
                forall|k: int| 0 <= k < i ==> self.colonies@[k].name_spec() != name@,
            decreases self.colonies@.len() - i,
        {
            if *self.colonies[i].name_ref() == *name {
                return Some(i);
            }
            i += 1;
        }
        None
    }

    /// The colony called `name`.
    pub fn get_colony_by_name(&self, name: &String) -> (r: Result<&Colony, GameError>)
        ensures
            match r {
                Ok(c) => exists|i: int| self.has_colony_at(name@, i) && self.colonies_spec()[i] == *c,
                Err(e) => !self.contains_colony(name@) && (e matches GameError::ColonyNotFound(n)
                    && n@ == name@),
            },
    {
        match self.find_colony(name) {
            Some(i) => Ok(&self.colonies[i]),
            None => Err(GameError::ColonyNotFound(name.clone())),
        }
    }

    /// The names of all colonies, in order.
    pub fn colony_names(&self) -> (r: Vec<String>)
        ensures
            r@.len() == self.colonies_spec().len(),
            forall|i: int| 0 <= i < r@.len() ==> (#[trigger] r@[i])@ == self.colonies_spec()[i].name_spec(),
    {
        let mut r: Vec<String> = Vec::new();
        let mut i: usize = 0;
        while i < self.colonies.len()
            invariant
                i <= self.colonies@.len(),
                r@.len() == i,
                forall|k: int| 0 <= k < i ==> (#[trigger] r@[k])@ == self.colonies@[k].name_spec(),
            decreases self.colonies@.len() - i,
        {
            r.push(self.colonies[i].get_name());
            i += 1;
        }
        r
    }

    /// Starts building `building_type` in the colony called `colony_name`.
    /// Refused, with nothing changed, when there is no such colony or it
    /// already has a construction under way.
    pub fn start_construction(&mut self, colony_name: &String, building_type: BuildingType) -> (r:
        Result<(), GameError>)
        requires
            old(self).wf(),
        ensures
            final(self).wf(),
            final(self).research_spec() == old(self).research_spec(),
            final(self).module_types_spec() == old(self).module_types_spec(),
            match r {
                Ok(()) => exists|i: int|
                    #![trigger old(self).colonies_spec()[i]]
                    old(self).has_colony_at(colony_name@, i)
                        && old(self).colonies_spec()[i].construction_spec() is None
                        && final(self).colonies_spec().len() == old(self).colonies_spec().len()
                        && (forall|k: int|
                        0 <= k < old(self).colonies_spec().len() && k != i ==> (#[trigger] final(self).colonies_spec()[k])
                            == old(self).colonies_spec()[k])
                        && final(self).colonies_spec()[i].name_spec() == colony_name@
                        && final(self).colonies_spec()[i].buildings_spec() == old(
                        self,
                    ).colonies_spec()[i].buildings_spec()
                        && final(self).colonies_spec()[i].construction_spec() == Some(
                        fresh_process(building_type),
                    ),
                Err(e) => final(self).colonies_spec() == old(self).colonies_spec() && ((
                !old(self).contains_colony(colony_name@) && (e matches GameError::ColonyNotFound(n)
                    && n@ == colony_name@)) || (exists|i: int|
                    old(self).has_colony_at(colony_name@, i)
                        && old(self).colonies_spec()[i].construction_spec() is Some)
                    && (e matches GameError::ColonyBusy(n) && n@ == colony_name@)),
            },
    {
        let i = match self.find_colony(colony_name) {
            Some(i) => i,
            None => {
                return Err(GameError::ColonyNotFound(colony_name.clone()));
            },
        };
        if self.colonies[i].is_busy() {
            return Err(GameError::ColonyBusy(colony_name.clone()));
        }
        let ghost before = self.colonies@;
        let r = self.colonies[i].start_construction(building_type);
        proof {
            let cs = self.colonies@;
            assert forall|a: int, b: int| 0 <= a < b < cs.len() implies cs[a].name_spec()
                != cs[b].name_spec() by {
                assert(cs[a].name_spec() == before[a].name_spec());
                assert(cs[b].name_spec() == before[b].name_spec());
            }
            assert forall|k: int| 0 <= k < cs.len() implies (#[trigger] cs[k]).wf() by {
                if k != i {
                    assert(before[k].wf());
                }
            }
        }
        r
    }

    /// Starts building the building type whose display name is
    /// `kind_name` in the colony called `colony_name`.
    pub fn start_construction_by_name(&mut self, colony_name: &String, kind_name: &String) -> (r:
        Result<(), GameError>)
        requires
            old(self).wf(),
        ensures
            final(self).wf(),
            final(self).research_spec() == old(self).research_spec(),
            final(self).module_types_spec() == old(self).module_types_spec(),
            match r {
                Ok(()) => exists|b: BuildingType, i: int|
                    #![trigger building_name(b), old(self).colonies_spec()[i]]
                    building_name(b) == kind_name@ && old(self).has_colony_at(colony_name@, i)
                        && old(self).colonies_spec()[i].construction_spec() is None
                        && final(self).colonies_spec().len() == old(self).colonies_spec().len()
                        && (forall|k: int|
                        0 <= k < old(self).colonies_spec().len() && k != i ==> (#[trigger] final(self).colonies_spec()[k])
                            == old(self).colonies_spec()[k])
                        && final(self).colonies_spec()[i].name_spec() == colony_name@
                        && final(self).colonies_spec()[i].buildings_spec() == old(
                        self,
                    ).colonies_spec()[i].buildings_spec()
                        && final(self).colonies_spec()[i].construction_spec() == Some(
                        fresh_process(b),
                    ),
                Err(e) => final(self).colonies_spec() == old(self).colonies_spec() && ((
                !old(self).contains_colony(colony_name@) && (e matches GameError::ColonyNotFound(n)
                    && n@ == colony_name@)) || (old(self).contains_colony(colony_name@) && (forall|
                    b: BuildingType,
                | building_name(b) != kind_name@) && (e matches GameError::BuildingTypeNotFound(n)
                    && n@ == kind_name@)) || ((exists|b: BuildingType| building_name(b) == kind_name@)
                    && (exists|i: int|
                    old(self).has_colony_at(colony_name@, i)
                        && old(self).colonies_spec()[i].construction_spec() is Some) && (
                e matches GameError::ColonyBusy(n) && n@ == colony_name@))),
            },
    {
        if self.find_colony(colony_name).is_none() {
            return Err(GameError::ColonyNotFound(colony_name.clone()));
        }
        match BuildingType::from_name(kind_name) {
            Some(b) => self.start_construction(colony_name, b),
            None => Err(GameError::BuildingTypeNotFound(kind_name.clone())),
        }
    }

    /// Starts the research called `name`; see `ResearchGraph::start_research`.
    pub fn start_research(&mut self, name: &String) -> (r: Result<(), GameError>)
        requires
            old(self).wf(),
        ensures
            final(self).wf(),
            final(self).colonies_spec() == old(self).colonies_spec(),
            final(self).module_types_spec() == old(self).module_types_spec(),
            final(self).research_spec().fields_spec() == old(self).research_spec().fields_spec(),
            match r {
                Ok(()) => exists|i: int|
                    old(self).research_spec().has_research_at(name@, i)
                        && !old(self).researches()[i].started && eligible(
                        old(self).researches(),
                        old(self).researches()[i],
                    ) && final(self).researches() == old(self).researches().update(
                        i,
                        ResearchView { started: true, ..old(self).researches()[i] },
                    ),
                Err(e) => final(self).researches() == old(self).researches() && ((
                !old(self).research_spec().contains_research(name@) && (
                e matches GameError::ResearchNotFound(n) && n@ == name@)) || (exists|i: int|
                    old(self).research_spec().has_research_at(name@, i) && (
                    old(self).researches()[i].started || !eligible(
                        old(self).researches(),
                        old(self).researches()[i],
                    ))) && (e matches GameError::IneligibleResearch(n) && n@ == name@)),
            },
    {
        self.research.start_research(name)
    }

    /// The research catalog.
    pub fn research(&self) -> (r: &ResearchGraph)
        ensures
            *r == self.research_spec(),
    {
        &self.research
    }

    /// The research fields, in catalog order.
    pub fn get_research_fields(&self) -> (r: Vec<ResearchField>)
        ensures
            r@.map_values(|f: ResearchField| f@) == self.research_spec().fields_spec(),
    {
        self.research.get_fields()
    }

    /// The researches in `field`, in catalog order.
    pub fn get_researches_by_field(&self, field: &ResearchField) -> (r: Vec<Research>)
        ensures
            r@.map_values(|x: Research| x@) == in_field(self.researches(), field@),
    {
        self.research.researches_by_field(field)
    }

    /// The research called `name`.
    pub fn get_research(&self, name: &String) -> (r: Result<&Research, GameError>)
        ensures
            match r {
                Ok(res) => exists|i: int|
                    self.research_spec().has_research_at(name@, i) && self.researches()[i] == res@,
                Err(e) => !self.research_spec().contains_research(name@) && (
                e matches GameError::ResearchNotFound(n) && n@ == name@),
            },
    {
        let r = self.research.get(name);
        proof {
            if let Ok(res) = r {
                let i = choose|i: int|
                    self.research.has_research_at(name@, i) && self.research.researches_spec()[i]
                        == res@;
                assert(self.research_spec() == self.research);
                assert(self.research_spec().has_research_at(name@, i));
                assert(self.researches()[i] == res@);
            }
        }
        r
    }

    /// The two prerequisite groups of the research called `name`, each
    /// member with whether it is completed.
    pub fn get_research_dependency_info(&self, name: &String) -> (r: Result<
        (Vec<(String, bool)>, Vec<(String, bool)>),
        GameError,
    >)
        ensures
            match r {
                Ok((all, any)) => exists|i: int|
                    self.research_spec().has_research_at(name@, i) && status_of(all@)
                        == group_status(self.researches(), self.researches()[i].all_of)
                        && status_of(any@) == group_status(
                        self.researches(),
                        self.researches()[i].any_of,
                    ),
                Err(e) => !self.research_spec().contains_research(name@) && (
                e matches GameError::ResearchNotFound(n) && n@ == name@),
            },
    {
        let r = self.research.dependency_info(name);
        proof {
            if let Ok((ref all, ref any)) = r {
                let rs = self.research.researches_spec();
                let i = choose|i: int|
                    self.research.has_research_at(name@, i) && status_of(all@) == group_status(
                        rs,
                        rs[i].all_of,
                    ) && status_of(any@) == group_status(rs, rs[i].any_of);
                assert(self.research_spec().has_research_at(name@, i));
            }
        }
        r
    }

    /// Progress of the research called `name`, as a whole percentage.
    pub fn get_research_progress(&self, name: &String) -> (r: Result<u32, GameError>)
        requires
            self.wf(),
        ensures
            match r {
                Ok(p) => exists|i: int|
                    self.research_spec().has_research_at(name@, i) && p == percentage_of(
                        self.researches()[i].progress,
                        self.researches()[i].cost,
                    ),
                Err(e) => !self.research_spec().contains_research(name@) && (
                e matches GameError::ResearchNotFound(n) && n@ == name@),
            },
    {
        self.research.progress(name)
    }

    /// Progress of the research called `name` as text, such as `42%`.
    pub fn get_research_progress_text(&self, name: &String) -> (r: Result<String, GameError>)
        requires
            self.wf(),
        ensures
            match r {
                Ok(t) => exists|i: int|
                    self.research_spec().has_research_at(name@, i) && t@ == decimal(
                        percentage_of(self.researches()[i].progress, self.researches()[i].cost)
                            as nat,
                    ) + seq!['%'],
                Err(e) => !self.research_spec().contains_research(name@) && (
                e matches GameError::ResearchNotFound(n) && n@ == name@),
            },
    {
        self.research.progress_text(name)
    }

    /// Whether a research called `name` is completed.
    pub fn is_research_completed(&self, name: &String) -> (r: bool)
        ensures
            r == completed_in(self.researches(), name@),
    {
        self.research.is_completed(name)
    }

    /// Each ship module type's name with its menu colour, in catalog order.
    pub fn get_ship_module_types(&self) -> (r: Vec<(String, MenuColor)>)
        ensures
            r@.len() == self.module_types_spec().len(),
            forall|i: int|
                0 <= i < r@.len() ==> ((#[trigger] r@[i]).0@, r@[i].1) == self.module_types_spec()[i],
    {
        let mut r: Vec<(String, MenuColor)> = Vec::new();
        let mut i: usize = 0;
        while i < self.ship_module_types.len()
            invariant
                i <= self.ship_module_types@.len(),
                r@.len() == i,
                forall|k: int|
                    0 <= k < i ==> ((#[trigger] r@[k]).0@, r@[k].1) == self.ship_module_types@[k]@,
            decreases self.ship_module_types@.len() - i,
        {
            let m = &self.ship_module_types[i];
            r.push((m.get_name(), m.get_menu_color()));
            i += 1;
        }
        r
    }
}

} // verus!
