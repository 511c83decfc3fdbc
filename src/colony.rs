use vstd::prelude::*;

use crate::building::{producing_resources, BuildingType};
use crate::construction_process::{fresh_process, ConstructionProcess, ConstructionView};
use crate::error::GameError;

verus! {

/// A settlement with its completed buildings and at most one construction
/// under way.
#[derive(Debug)]
pub struct Colony {
    name: String,
    buildings: Vec<BuildingType>,
    construction: Option<ConstructionProcess>,
}

/// What a colony's construction slot holds after one tick at `speed`.
pub open spec fn construction_after_tick(c: Option<ConstructionView>, speed: u32) -> Option<
    ConstructionView,
> {
    match c {
        None => None,
        Some(p) => if p.updated(speed).is_complete() {
            None
        } else {
            Some(p.updated(speed))
        },
    }
}

/// The building that one tick at `speed` completes, if any.
pub open spec fn completed_by_tick(c: Option<ConstructionView>, speed: u32) -> Option<BuildingType> {
    match c {
        None => None,
        Some(p) => if p.updated(speed).is_complete() {
            Some(p.building_type)
        } else {
            None
        },
    }
}

/// The buildings of `s` that produce resources, in order.
pub open spec fn producing_only(s: Seq<BuildingType>) -> Seq<BuildingType> {
    s.filter(|b: BuildingType| producing_resources(b))
}

impl Colony {
    pub closed spec fn name_spec(&self) -> Seq<char> {
        self.name@
    }

    pub closed spec fn buildings_spec(&self) -> Seq<BuildingType> {
        self.buildings@
    }

    pub closed spec fn construction_spec(&self) -> Option<ConstructionView> {
        match self.construction {
            Some(p) => Some(p@),
            None => None,
        }
    }

    /// An active construction is itself well formed.
    pub open spec fn wf(&self) -> bool {
        match self.construction_spec() {
            Some(p) => p.wf(),
            None => true,
        }
    }

    /// Buildings after one tick at `speed`.
    pub open spec fn buildings_after_tick(&self, speed: u32) -> Seq<BuildingType> {
        match completed_by_tick(self.construction_spec(), speed) {
            Some(b) => self.buildings_spec().push(b),
            None => self.buildings_spec(),
        }
    }

    /// A colony with no buildings and nothing under construction.
    pub fn new(name: String) -> (r: Colony)
        ensures
            r.wf(),
            r.name_spec() == name@,
            r.buildings_spec() == Seq::<BuildingType>::empty(),
            r.construction_spec() == None::<ConstructionView>,
    {
        Colony { name, buildings: Vec::new(), construction: None }
    }

    /// A colony that already has the given completed buildings.
    pub fn with_buildings(name: String, buildings: Vec<BuildingType>) -> (r: Colony)
        ensures
            r.wf(),
            r.name_spec() == name@,
            r.buildings_spec() == buildings@,
            r.construction_spec() == None::<ConstructionView>,
    {
        Colony { name, buildings, construction: None }
    }

    pub fn get_name(&self) -> (r: String)
        ensures
            r@ == self.name_spec(),
    {
        self.name.clone()
    }

    pub fn name_ref(&self) -> (r: &String)
        ensures
            r@ == self.name_spec(),
    {
        &self.name
    }

    /// The completed buildings, in order of completion.
    pub fn get_buildings(&self) -> (r: Vec<BuildingType>)
        ensures
            r@ == self.buildings_spec(),
    {
        let mut r: Vec<BuildingType> = Vec::new();
        let mut i: usize = 0;
        while i < self.buildings.len()
            invariant
                i <= self.buildings@.len(),
                r@ == self.buildings@.subrange(0, i as int),
            decreases self.buildings@.len() - i,
        {
            r.push(self.buildings[i]);
            i += 1;
            assert(r@ =~= self.buildings@.subrange(0, i as int));
        }
        assert(r@ =~= self.buildings@);
        r
    }

    /// The completed buildings that produce resources, in order of completion.
    pub fn producing_buildings(&self) -> (r: Vec<BuildingType>)
        ensures
            r@ == producing_only(self.buildings_spec()),
    {
        let mut r: Vec<BuildingType> = Vec::new();
        let mut i: usize = 0;
        while i < self.buildings.len()
            invariant
                i <= self.buildings@.len(),
                r@ == producing_only(self.buildings@.subrange(0, i as int)),
            decreases self.buildings@.len() - i,
        {
            let b = self.buildings[i];
            proof {
                let next = self.buildings@.subrange(0, i + 1);
                assert(next.drop_last() =~= self.buildings@.subrange(0, i as int));
                assert(next.last() == b);
                reveal(Seq::filter);
                assert(producing_only(next) == if producing_resources(b) {
                    producing_only(next.drop_last()).push(b)
                } else {
                    producing_only(next.drop_last())
                });
            }
            if b.is_producing_resources() {
                r.push(b);
            }
            i += 1;
        }
        assert(self.buildings@.subrange(0, i as int) =~= self.buildings@);
        r
    }

    pub fn get_construction(&self) -> (r: Option<ConstructionProcess>)
        ensures
            r is Some <==> self.construction_spec() is Some,
            r is Some ==> self.construction_spec() == Some(r->Some_0@),
    {
        self.construction
    }

    pub fn is_busy(&self) -> (r: bool)
        ensures
            r == self.construction_spec() is Some,
    {
        self.construction.is_some()
    }

    /// Starts building `building_type`; refused while another construction
    /// is under way, in which case nothing changes.
    pub fn start_construction(&mut self, building_type: BuildingType) -> (r: Result<(), GameError>)
        requires
            old(self).wf(),
        ensures
            final(self).wf(),
            final(self).name_spec() == old(self).name_spec(),
            final(self).buildings_spec() == old(self).buildings_spec(),
            old(self).construction_spec() is Some ==> (r matches Err(GameError::ColonyBusy(n))
                && n@ == old(self).name_spec()) && final(self).construction_spec() == old(
                self,
            ).construction_spec(),
            old(self).construction_spec() is None ==> r == Ok::<(), GameError>(())
                && final(self).construction_spec() == Some(fresh_process(building_type)),
    {
        if self.construction.is_some() {
            return Err(GameError::ColonyBusy(self.name.clone()));
        }
        self.construction = Some(ConstructionProcess::new(building_type));
        Ok(())
    }

    /// Advances the construction under way by `speed`. When it completes,
    /// the building joins the colony, the slot is cleared and the building
    /// is returned.
    pub fn tick(&mut self, speed: u32) -> (r: Option<BuildingType>)
        requires
            old(self).wf(),
        ensures
            final(self).wf(),
            final(self).name_spec() == old(self).name_spec(),
            r == completed_by_tick(old(self).construction_spec(), speed),
            final(self).construction_spec() == construction_after_tick(
                old(self).construction_spec(),
                speed,
            ),
            final(self).buildings_spec() == old(self).buildings_after_tick(speed),
    {
        match self.construction {
            None => None,
            Some(p) => {
                let mut p = p;
                let done = p.update(speed);
                if done {
                    let b = p.building_type();
                    self.buildings.push(b);
                    self.construction = None;
                    Some(b)
                } else {
                    self.construction = Some(p);
                    None
                }
            },
        }
    }
}

} // verus!
