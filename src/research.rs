use vstd::prelude::*;

use crate::construction_process::clamped_add;
use crate::percent::{decimal, percent_text, percentage, percentage_of};
use crate::error::GameError;

verus! {

/// The text of each name in `v`.
pub open spec fn names_of(v: Seq<String>) -> Seq<Seq<char>> {
    v.map_values(|s: String| s@)
}

/// A copy of a list of names.
fn copy_names(v: &Vec<String>) -> (r: Vec<String>)
    ensures
        names_of(r@) == names_of(v@),
{
    let mut r: Vec<String> = Vec::new();
    let mut i: usize = 0;
    while i < v.len()
        invariant
            i <= v@.len(),
            r@.len() == i,
            forall|k: int| 0 <= k < i ==> r@[k]@ == v@[k]@,
        decreases v@.len() - i,
    {
        let s = v[i].clone();
        r.push(s);
        i += 1;
    }
    assert(names_of(r@) =~= names_of(v@));
    r
}

/// A named research category.
#[derive(Debug, Clone)]
pub struct ResearchField {
    name: String,
}

impl View for ResearchField {
    type V = Seq<char>;

    closed spec fn view(&self) -> Seq<char> {
        self.name@
    }
}

impl ResearchField {
    pub fn new(name: String) -> (r: ResearchField)
        ensures
            r@ == name@,
    {
        ResearchField { name }
    }

    pub fn get_name(&self) -> (r: String)
        ensures
            r@ == self@,
    {
        self.name.clone()
    }

    /// A field with the same name.
    pub fn duplicate(&self) -> (r: ResearchField)
        ensures
            r@ == self@,
    {
        ResearchField { name: self.name.clone() }
    }
}

/// The state of a research, as contracts see it.
pub struct ResearchView {
    pub name: Seq<char>,
    pub field: Seq<char>,
    pub cost: u32,
    pub progress: u32,
    pub started: bool,
    /// Every one of these must be completed first.
    pub all_of: Seq<Seq<char>>,
    /// At least one of these must be completed first, unless it is empty.
    pub any_of: Seq<Seq<char>>,
}

impl ResearchView {
    /// Progress never exceeds the cost.
    pub open spec fn wf(&self) -> bool {
        self.progress <= self.cost
    }

    pub open spec fn completed(&self) -> bool {
        self.progress == self.cost
    }

    /// This research after one tick at `speed`: only a started research
    /// advances, and never beyond its cost.
    pub open spec fn ticked(&self, speed: u32) -> ResearchView {
        if self.started {
            ResearchView { progress: clamped_add(self.progress, speed, self.cost), ..*self }
        } else {
            *self
        }
    }
}

/// Whether `rs` holds a completed research called `name`.
pub open spec fn completed_in(rs: Seq<ResearchView>, name: Seq<char>) -> bool {
    exists|i: int| 0 <= i < rs.len() && rs[i].name == name && rs[i].completed()
}

/// Every member of the all-of group of `r` is completed in `rs`.
pub open spec fn all_of_satisfied(rs: Seq<ResearchView>, r: ResearchView) -> bool {
    forall|j: int| 0 <= j < r.all_of.len() ==> completed_in(rs, #[trigger] r.all_of[j])
}

/// The at-least-one-of group of `r` is empty, or one of its members is
/// completed in `rs`.
pub open spec fn any_of_satisfied(rs: Seq<ResearchView>, r: ResearchView) -> bool {
    r.any_of.len() == 0 || exists|j: int|
        0 <= j < r.any_of.len() && completed_in(rs, #[trigger] r.any_of[j])
}

/// Whether the prerequisites of `r` are met in `rs`.
pub open spec fn eligible(rs: Seq<ResearchView>, r: ResearchView) -> bool {
    all_of_satisfied(rs, r) && any_of_satisfied(rs, r)
}

/// No two researches share a name.
pub open spec fn unique_names(rs: Seq<ResearchView>) -> bool {
    forall|i: int, j: int| 0 <= i < j < rs.len() ==> rs[i].name != rs[j].name
}

/// The researches of `rs` in `field`, in catalog order.
pub open spec fn in_field(rs: Seq<ResearchView>, field: Seq<char>) -> Seq<ResearchView> {
    rs.filter(|r: ResearchView| r.field == field)
}

/// Each name of `group` with whether it is completed in `rs`.
pub open spec fn group_status(rs: Seq<ResearchView>, group: Seq<Seq<char>>) -> Seq<
    (Seq<char>, bool),
> {
    group.map_values(|n: Seq<char>| (n, completed_in(rs, n)))
}

/// A research item with its prerequisites and progress.
#[derive(Debug)]
pub struct Research {
    name: String,
    field: ResearchField,
    cost: u32,
    progress: u32,
    started: bool,
    all_of: Vec<String>,
    any_of: Vec<String>,
}

impl View for Research {
    type V = ResearchView;

    closed spec fn view(&self) -> ResearchView {
        ResearchView {
            name: self.name@,
            field: self.field@,
            cost: self.cost,
            progress: self.progress,
            started: self.started,
            all_of: names_of(self.all_of@),
            any_of: names_of(self.any_of@),
        }
    }
}

impl Research {
    /// A research that has not been started.
    pub fn new(
        name: String,
        field: ResearchField,
        cost: u32,
        all_of: Vec<String>,
        any_of: Vec<String>,
    ) -> (r: Research)
        ensures
            r@ == (ResearchView {
                name: name@,
                field: field@,
                cost,
                progress: 0,
                started: false,
                all_of: names_of(all_of@),
                any_of: names_of(any_of@),
            }),
    {
        Research { name, field, cost, progress: 0, started: false, all_of, any_of }
    }

    pub fn get_name(&self) -> (r: String)
        ensures
            r@ == self@.name,
    {
        self.name.clone()
    }

    pub fn name_ref(&self) -> (r: &String)
        ensures
            r@ == self@.name,
    {
        &self.name
    }

    pub fn get_field(&self) -> (r: ResearchField)
        ensures
            r@ == self@.field,
    {
        self.field.duplicate()
    }

    pub fn get_cost(&self) -> (r: u32)
        ensures
            r == self@.cost,
    {
        self.cost
    }

    pub fn get_progress(&self) -> (r: u32)
        ensures
            r == self@.progress,
    {
        self.progress
    }

    pub fn is_started(&self) -> (r: bool)
        ensures
            r == self@.started,
    {
        self.started
    }

    pub fn is_completed(&self) -> (r: bool)
        ensures
            r == self@.completed(),
    {
        self.progress == self.cost
    }

    /// Progress as a whole percentage, rounded down; a zero cost counts as
    /// complete.
    pub fn get_percentage(&self) -> (r: u32)
        requires
            self@.wf(),
        ensures
            r == percentage_of(self@.progress, self@.cost),
            r <= 100,
    {
        percentage(self.progress, self.cost)
    }

    pub fn all_of(&self) -> (r: Vec<String>)
        ensures
            names_of(r@) == self@.all_of,
    {
        copy_names(&self.all_of)
    }

    pub fn any_of(&self) -> (r: Vec<String>)
        ensures
            names_of(r@) == self@.any_of,
    {
        copy_names(&self.any_of)
    }

    /// A research in the same state.
    pub fn duplicate(&self) -> (r: Research)
        ensures
            r@ == self@,
    {
        Research {
            name: self.name.clone(),
            field: self.field.duplicate(),
            cost: self.cost,
            progress: self.progress,
            started: self.started,
            all_of: copy_names(&self.all_of),
            any_of: copy_names(&self.any_of),
        }
    }

    fn advance(&mut self, speed: u32)
        requires
            old(self)@.wf(),
        ensures
            final(self)@ == old(self)@.ticked(speed),
            final(self)@.wf(),
    {
        if self.started {
            if speed >= self.cost - self.progress {
                self.progress = self.cost;
            } else {
                self.progress = self.progress + speed;
            }
        }
    }

    fn mark_started(&mut self)
        ensures
            final(self)@ == (ResearchView { started: true, ..old(self)@ }),
    {
        self.started = true;
    }
}

/// The research catalog: its fields and its researches, in catalog order.
#[derive(Debug)]
pub struct ResearchGraph {
    fields: Vec<ResearchField>,
    researches: Vec<Research>,
}

impl ResearchGraph {
    pub closed spec fn fields_spec(&self) -> Seq<Seq<char>> {
        self.fields@.map_values(|f: ResearchField| f@)
    }

    pub closed spec fn researches_spec(&self) -> Seq<ResearchView> {
        self.researches@.map_values(|r: Research| r@)
    }

    /// Names are unique and no progress exceeds its cost.
    pub open spec fn wf(&self) -> bool {
        &&& unique_names(self.researches_spec())
        &&& forall|i: int|
            0 <= i < self.researches_spec().len() ==> (#[trigger] self.researches_spec()[i]).wf()
    }

    /// Index of the research called `name`, if any.
    pub open spec fn has_research_at(&self, name: Seq<char>, i: int) -> bool {
        0 <= i < self.researches_spec().len() && self.researches_spec()[i].name == name
    }

    pub open spec fn contains_research(&self, name: Seq<char>) -> bool {
        exists|i: int| self.has_research_at(name, i)
    }

    pub fn new(fields: Vec<ResearchField>, researches: Vec<Research>) -> (r: ResearchGraph)
        requires
            unique_names(researches@.map_values(|r: Research| r@)),
            forall|i: int| 0 <= i < researches@.len() ==> (#[trigger] researches@[i])@.wf(),
        ensures
            r.wf(),
            r.fields_spec() == fields@.map_values(|f: ResearchField| f@),
            r.researches_spec() == researches@.map_values(|r: Research| r@),
    {
        ResearchGraph { fields, researches }
    }

    /// Position of the research called `name`, if any.
    pub fn find(&self, name: &String) -> (r: Option<usize>)
        ensures
            match r {
                Some(i) => self.has_research_at(name@, i as int),
                None => !self.contains_research(name@),
            },
    {
        let mut i: usize = 0;
        while i < self.researches.len()
            invariant
                i <= self.researches@.len(),
                forall|k: int| 0 <= k < i ==> self.researches@[k]@.name != name@,
            decreases self.researches@.len() - i,
        {
            if *self.researches[i].name_ref() == *name {
                return Some(i);
            }
            i += 1;
        }
        None
    }

    /// The research called `name`.
    pub fn get(&self, name: &String) -> (r: Result<&Research, GameError>)
        ensures
            match r {
                Ok(res) => self.contains_research(name@) && res@.name == name@
                    && exists|i: int| self.has_research_at(name@, i) && self.researches_spec()[i] == res@,
                Err(e) => !self.contains_research(name@) && (e matches GameError::ResearchNotFound(n)
                    && n@ == name@),
            },
    {
        match self.find(name) {
            Some(i) => Ok(&self.researches[i]),
            None => Err(GameError::ResearchNotFound(name.clone())),
        }
    }

    /// Whether a research called `name` is completed.
    pub fn is_completed(&self, name: &String) -> (r: bool)
        ensures
            r == completed_in(self.researches_spec(), name@),
    {
        let ghost rs = self.researches_spec();
        let mut i: usize = 0;
        while i < self.researches.len()
            invariant
                rs == self.researches_spec(),
                i <= self.researches@.len(),
                forall|k: int| 0 <= k < i ==> !(rs[k].name == name@ && rs[k].completed()),
            decreases self.researches@.len() - i,
        {
            let r = &self.researches[i];
            assert(rs[i as int] == r@);
            if *r.name_ref() == *name && r.is_completed() {
                return true;
            }
            i += 1;
        }
        false
    }

    fn group_completed(&self, group: &Vec<String>) -> (r: bool)
        ensures
            r == forall|j: int|
                0 <= j < group@.len() ==> completed_in(self.researches_spec(), #[trigger] group@[j]@),
    {
        let mut j: usize = 0;
        while j < group.len()
            invariant
                j <= group@.len(),
                forall|k: int|
                    0 <= k < j ==> completed_in(self.researches_spec(), #[trigger] group@[k]@),
            decreases group@.len() - j,
        {
            if !self.is_completed(&group[j]) {
                return false;
            }
            j += 1;
        }
        true
    }

    fn group_touched(&self, group: &Vec<String>) -> (r: bool)
        ensures
            r == exists|j: int|
                0 <= j < group@.len() && completed_in(self.researches_spec(), #[trigger] group@[j]@),
    {
        let mut j: usize = 0;
        while j < group.len()
            invariant
                j <= group@.len(),
                forall|k: int|
                    0 <= k < j ==> !completed_in(self.researches_spec(), #[trigger] group@[k]@),
            decreases group@.len() - j,
        {
            if self.is_completed(&group[j]) {
                return true;
            }
            j += 1;
        }
        false
    }

    /// Whether the prerequisites of the research at `index` are met.
    pub fn is_eligible(&self, index: usize) -> (r: bool)
        requires
            index < self.researches_spec().len(),
        ensures
            r == eligible(self.researches_spec(), self.researches_spec()[index as int]),
    {
        let res = &self.researches[index];
        let ghost rv = res@;
        assert(rv == self.researches_spec()[index as int]);
        let all = self.group_completed(&res.all_of);
        let any = res.any_of.len() == 0 || self.group_touched(&res.any_of);
        proof {
            let rs = self.researches_spec();
            if all {
                assert forall|j: int| 0 <= j < rv.all_of.len() implies completed_in(
                    rs,
                    #[trigger] rv.all_of[j],
                ) by {
                    assert(rv.all_of[j] == res.all_of@[j]@);
                }
            } else {
                let j = choose|j: int|
                    0 <= j < res.all_of@.len() && !completed_in(rs, #[trigger] res.all_of@[j]@);
                assert(rv.all_of[j] == res.all_of@[j]@);
            }
            if any && res.any_of.len() > 0 {
                let j = choose|j: int|
                    0 <= j < res.any_of@.len() && completed_in(rs, #[trigger] res.any_of@[j]@);
                assert(rv.any_of[j] == res.any_of@[j]@);
            }
            if !any {
                assert forall|j: int| 0 <= j < rv.any_of.len() implies !completed_in(
                    rs,
                    #[trigger] rv.any_of[j],
                ) by {
                    assert(rv.any_of[j] == res.any_of@[j]@);
                }
            }
        }
        all && any
    }

    /// Starts the research called `name`. Refused, with nothing changed,
    /// when there is no such research, or when it was already started or
    /// its prerequisites are not met.
    pub fn start_research(&mut self, name: &String) -> (r: Result<(), GameError>)
        requires
            old(self).wf(),
        ensures
            final(self).wf(),
            final(self).fields_spec() == old(self).fields_spec(),
            match r {
                Ok(()) => exists|i: int|
                    old(self).has_research_at(name@, i) && !old(self).researches_spec()[i].started
                        && eligible(old(self).researches_spec(), old(self).researches_spec()[i])
                        && final(self).researches_spec() == old(self).researches_spec().update(
                        i,
                        ResearchView { started: true, ..old(self).researches_spec()[i] },
                    ),
                Err(e) => final(self).researches_spec() == old(self).researches_spec() && ((
                !old(self).contains_research(name@) && (e matches GameError::ResearchNotFound(n)
                    && n@ == name@)) || (exists|i: int|
                    old(self).has_research_at(name@, i) && (old(self).researches_spec()[i].started
                        || !eligible(old(self).researches_spec(), old(self).researches_spec()[i])))
                    && (e matches GameError::IneligibleResearch(n) && n@ == name@)),
            },
    {
        let i = match self.find(name) {
            Some(i) => i,
            None => {
                return Err(GameError::ResearchNotFound(name.clone()));
            },
        };
        if self.researches[i].is_started() || !self.is_eligible(i) {
            return Err(GameError::IneligibleResearch(name.clone()));
        }
        let ghost before = self.researches_spec();
        self.researches[i].mark_started();
        assert(self.researches_spec() =~= before.update(
            i as int,
            ResearchView { started: true, ..before[i as int] },
        ));
        Ok(())
    }

    /// Advances every started research by `speed`, each stopping at its
    /// cost.
    pub fn tick(&mut self, speed: u32)
        requires
            old(self).wf(),
        ensures
            final(self).wf(),
            final(self).fields_spec() == old(self).fields_spec(),
            final(self).researches_spec().len() == old(self).researches_spec().len(),
            forall|i: int|
                0 <= i < old(self).researches_spec().len() ==> (#[trigger] final(self).researches_spec()[i])
                    == old(self).researches_spec()[i].ticked(speed),
    {
        let ghost before = self.researches_spec();
        let mut i: usize = 0;
        while i < self.researches.len()
            invariant
                i <= self.researches@.len(),
                self.researches@.len() == before.len(),
                self.fields_spec() == old(self).fields_spec(),
                forall|k: int| 0 <= k < i ==> #[trigger] self.researches@[k]@ == before[k].ticked(speed),
                forall|k: int| i <= k < before.len() ==> #[trigger] self.researches@[k]@ == before[k],
                forall|k: int| 0 <= k < before.len() ==> (#[trigger] before[k]).wf(),
            decreases self.researches@.len() - i,
        {
            self.researches[i].advance(speed);
            i += 1;
        }
        proof {
            let rs = self.researches_spec();
            assert forall|a: int, b: int| 0 <= a < b < rs.len() implies rs[a].name != rs[b].name by {
                assert(rs[a].name == before[a].name);
                assert(rs[b].name == before[b].name);
            }
            assert forall|k: int| 0 <= k < rs.len() implies (#[trigger] rs[k]).wf() by {
                assert(before[k].wf());
            }
        }
    }

    /// The research fields, in catalog order.
    pub fn get_fields(&self) -> (r: Vec<ResearchField>)
        ensures
            r@.map_values(|f: ResearchField| f@) == self.fields_spec(),
    {
        let mut r: Vec<ResearchField> = Vec::new();
        let mut i: usize = 0;
        while i < self.fields.len()
            invariant
                i <= self.fields@.len(),
                r@.len() == i,
                forall|k: int| 0 <= k < i ==> r@[k]@ == self.fields@[k]@,
            decreases self.fields@.len() - i,
        {
            r.push(self.fields[i].duplicate());
            i += 1;
        }
        assert(r@.map_values(|f: ResearchField| f@) =~= self.fields_spec());
        r
    }

    /// The researches in `field`, in catalog order.
    pub fn researches_by_field(&self, field: &ResearchField) -> (r: Vec<Research>)
        ensures
            r@.map_values(|x: Research| x@) == in_field(self.researches_spec(), field@),
    {
        let ghost rs = self.researches_spec();
        let mut r: Vec<Research> = Vec::new();
        let mut i: usize = 0;
        while i < self.researches.len()
            invariant
                rs == self.researches_spec(),
                i <= rs.len(),
                r@.map_values(|x: Research| x@) == in_field(rs.subrange(0, i as int), field@),
            decreases rs.len() - i,
        {
            let res = &self.researches[i];
            proof {
                let next = rs.subrange(0, i + 1);
                assert(next.drop_last() =~= rs.subrange(0, i as int));
                assert(next.last() == res@);
                reveal(Seq::filter);
                assert(in_field(next, field@) == if res@.field == field@ {
                    in_field(next.drop_last(), field@).push(res@)
                } else {
                    in_field(next.drop_last(), field@)
                });
            }
            let ghost prev = r@;
            if res.field.name == field.name {
                let copy = res.duplicate();
                r.push(copy);
                assert(r@.map_values(|x: Research| x@) =~= prev.map_values(|x: Research| x@).push(
                    res@,
                ));
            }
            i += 1;
        }
        assert(rs.subrange(0, i as int) =~= rs);
        r
    }

    fn group_info(&self, group: &Vec<String>) -> (r: Vec<(String, bool)>)
        ensures
            status_of(r@) == group_status(self.researches_spec(), names_of(group@)),
    {
        let mut r: Vec<(String, bool)> = Vec::new();
        let mut j: usize = 0;
        while j < group.len()
            invariant
                j <= group@.len(),
                r@.len() == j,
                forall|k: int|
                    0 <= k < j ==> (#[trigger] r@[k]).0@ == group@[k]@ && r@[k].1 == completed_in(
                        self.researches_spec(),
                        group@[k]@,
                    ),
            decreases group@.len() - j,
        {
            let done = self.is_completed(&group[j]);
            let n = group[j].clone();
            r.push((n, done));
            j += 1;
        }
        assert(status_of(r@) =~= group_status(self.researches_spec(), names_of(group@)));
        r
    }

    /// For the research called `name`: each member of its all-of group and
    /// of its at-least-one-of group, with whether it is completed.
    pub fn dependency_info(&self, name: &String) -> (r: Result<
        (Vec<(String, bool)>, Vec<(String, bool)>),
        GameError,
    >)
        ensures
            match r {
                Ok((all, any)) => exists|i: int|
                    self.has_research_at(name@, i) && status_of(all@) == group_status(
                        self.researches_spec(),
                        self.researches_spec()[i].all_of,
                    ) && status_of(any@) == group_status(
                        self.researches_spec(),
                        self.researches_spec()[i].any_of,
                    ),
                Err(e) => !self.contains_research(name@) && (e matches GameError::ResearchNotFound(n)
                    && n@ == name@),
            },
    {
        match self.find(name) {
            Some(i) => {
                let res = &self.researches[i];
                let all = self.group_info(&res.all_of);
                let any = self.group_info(&res.any_of);
                Ok((all, any))
            },
            None => Err(GameError::ResearchNotFound(name.clone())),
        }
    }

    /// Progress of the research called `name`, as a whole percentage.
    pub fn progress(&self, name: &String) -> (r: Result<u32, GameError>)
        requires
            self.wf(),
        ensures
            match r {
                Ok(p) => exists|i: int|
                    self.has_research_at(name@, i) && p == percentage_of(
                        self.researches_spec()[i].progress,
                        self.researches_spec()[i].cost,
                    ),
                Err(e) => !self.contains_research(name@) && (e matches GameError::ResearchNotFound(n)
                    && n@ == name@),
            },
    {
        match self.find(name) {
            Some(i) => {
                assert(self.researches_spec()[i as int].wf());
                Ok(self.researches[i].get_percentage())
            },
            None => Err(GameError::ResearchNotFound(name.clone())),
        }
    }

    /// Progress of the research called `name` as text, such as `42%`.
    pub fn progress_text(&self, name: &String) -> (r: Result<String, GameError>)
        requires
            self.wf(),
        ensures
            match r {
                Ok(t) => exists|i: int|
                    self.has_research_at(name@, i) && t@ == decimal(
                        percentage_of(
                            self.researches_spec()[i].progress,
                            self.researches_spec()[i].cost,
                        ) as nat,
                    ) + seq!['%'],
                Err(e) => !self.contains_research(name@) && (e matches GameError::ResearchNotFound(n)
                    && n@ == name@),
            },
    {
        match self.find(name) {
            Some(i) => {
                assert(self.researches_spec()[i as int].wf());
                Ok(percent_text(self.researches[i].get_percentage()))
            },
            None => Err(GameError::ResearchNotFound(name.clone())),
        }
    }
}

/// Each name with its flag.
pub open spec fn status_of(v: Seq<(String, bool)>) -> Seq<(Seq<char>, bool)> {
    v.map_values(|p: (String, bool)| (p.0@, p.1))
}

/// An eligible research has every member of its all-of group completed,
/// and an empty at-least-one-of group or a completed member of it.
pub proof fn lemma_eligible_satisfies_groups(rs: Seq<ResearchView>, r: ResearchView, j: int)
    requires
        eligible(rs, r),
        0 <= j < r.all_of.len(),
    ensures
        completed_in(rs, r.all_of[j]),
        r.any_of.len() == 0 || exists|k: int|
            0 <= k < r.any_of.len() && completed_in(rs, #[trigger] r.any_of[k]),
{
}

/// An empty at-least-one-of group is satisfied whatever is completed.
pub proof fn lemma_empty_any_of_satisfied(rs: Seq<ResearchView>, r: ResearchView)
    requires
        r.any_of.len() == 0,
    ensures
        any_of_satisfied(rs, r),
{
}

/// A tick never lowers progress and never takes it past the cost.
pub proof fn lemma_tick_monotone(r: ResearchView, speed: u32)
    requires
        r.wf(),
    ensures
        r.ticked(speed).progress >= r.progress,
        r.ticked(speed).wf(),
        r.completed() ==> r.ticked(speed).completed(),
{
}

} // verus!
