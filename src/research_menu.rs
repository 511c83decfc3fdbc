use vstd::prelude::*;

use crate::tabs::{select_next_in_list, select_prev_in_list, Tabs};

verus! {

/// What the research menu is told by the rest of the program.
#[derive(Debug, Clone)]
pub enum MenuEvent {
    /// The game advanced by one tick.
    IngameTick,
    /// The research fields, in catalog order.
    FieldsLoaded(Vec<String>),
    /// The researches of the chosen field, in catalog order.
    ResearchesLoaded(Vec<String>),
    StartSelecting,
    SelectPrevious,
    SelectNext,
    ContinueSelecting,
    Select,
    MainAction,
}

/// What the research menu asks the rest of the program to do.
#[derive(Debug, Clone, PartialEq, Eq)]
pub enum MenuRequest {
    LoadResearchInfo(String),
    LoadResearchesForField(String),
    StartResearch(String),
}

/// The selection state of the research menu.
#[derive(Debug, Clone)]
pub struct ResearchMenu {
    pub field_list: Vec<String>,
    pub research_list: Vec<String>,
    pub field_index: usize,
    pub research_index: usize,
    pub field_list_focused: bool,
    pub research_list_focused: bool,
    pub research_selected: Option<String>,
}

/// The position after one step in a list of `len` entries: nothing moves
/// in an empty list, a position past the end goes back to the first entry.
pub open spec fn stepped(current: usize, len: nat, forward: bool) -> usize {
    if len == 0 {
        current
    } else if current >= len {
        0
    } else if forward {
        if current + 1 == len {
            0
        } else {
            (current + 1) as usize
        }
    } else if current == 0 {
        (len - 1) as usize
    } else {
        (current - 1) as usize
    }
}

impl Default for ResearchMenu {
    fn default() -> (r: ResearchMenu)
        ensures
            r.field_list@.len() == 0,
            r.research_list@.len() == 0,
            r.field_index == 0,
            r.research_index == 0,
            !r.field_list_focused,
            !r.research_list_focused,
            r.research_selected is None,
    {
        ResearchMenu::new()
    }
}

fn step(current: usize, len: usize, forward: bool) -> (r: usize)
    ensures
        r == stepped(current, len as nat, forward),
{
    if len == 0 {
        current
    } else if current >= len {
        0
    } else if forward {
        select_next_in_list(current, len)
    } else {
        select_prev_in_list(current, len)
    }
}

impl ResearchMenu {
    /// Nothing loaded, nothing focused, nothing selected.
    pub fn new() -> (r: ResearchMenu)
        ensures
            r.field_list@.len() == 0,
            r.research_list@.len() == 0,
            r.field_index == 0,
            r.research_index == 0,
            !r.field_list_focused,
            !r.research_list_focused,
            r.research_selected is None,
    {
        ResearchMenu {
            field_list: Vec::new(),
            research_list: Vec::new(),
            field_index: 0,
            research_index: 0,
            field_list_focused: false,
            research_list_focused: false,
            research_selected: None,
        }
    }

    /// The menu is shown on the research tab only.
    pub fn is_drawn_in_tab(&self, tab: &Tabs) -> (r: bool)
        ensures
            r == (*tab == Tabs::Research),
    {
        *tab == Tabs::Research
    }

    /// Applies one event to the menu and returns the request it gives
    /// rise to, if any.
    pub fn update(&mut self, event: MenuEvent) -> (r: Option<MenuRequest>)
        ensures
            match event {
                MenuEvent::IngameTick | MenuEvent::MainAction => {
                    &&& final(self).field_list@ == old(self).field_list@
                    &&& final(self).research_list@ == old(self).research_list@
                    &&& final(self).field_index == old(self).field_index
                    &&& final(self).research_index == old(self).research_index
                    &&& final(self).field_list_focused == old(self).field_list_focused
                    &&& final(self).research_list_focused == old(self).research_list_focused
                    &&& final(self).research_selected == old(self).research_selected
                    &&& match old(self).research_selected {
                        None => r is None,
                        Some(s) => if event is IngameTick {
                            r matches Some(MenuRequest::LoadResearchInfo(n)) && n@ == s@
                        } else {
                            r matches Some(MenuRequest::StartResearch(n)) && n@ == s@
                        },
                    }
                },
                MenuEvent::FieldsLoaded(v) => {
                    &&& r is None
                    &&& final(self).field_list@ == v@
                    &&& final(self).research_list@ == old(self).research_list@
                    &&& final(self).field_index == old(self).field_index
                    &&& final(self).research_index == old(self).research_index
                    &&& final(self).field_list_focused == old(self).field_list_focused
                    &&& final(self).research_list_focused == old(self).research_list_focused
                    &&& final(self).research_selected == old(self).research_selected
                },
                MenuEvent::ResearchesLoaded(v) => {
                    &&& r is None
                    &&& final(self).field_list@ == old(self).field_list@
                    &&& final(self).research_list@ == v@
                    &&& final(self).field_index == old(self).field_index
                    &&& final(self).research_index == old(self).research_index
                    &&& final(self).field_list_focused == old(self).field_list_focused
                    &&& final(self).research_list_focused == old(self).research_list_focused
                    &&& final(self).research_selected == old(self).research_selected
                },
                MenuEvent::StartSelecting => {
                    &&& r is None
                    &&& final(self).field_list@ == old(self).field_list@
                    &&& final(self).research_list@ == old(self).research_list@
                    &&& final(self).field_index == old(self).field_index
                    &&& final(self).research_index == old(self).research_index
                    &&& final(self).field_list_focused
                    &&& final(self).research_list_focused == old(self).research_list_focused
                    &&& final(self).research_selected == old(self).research_selected
                },
                MenuEvent::SelectPrevious | MenuEvent::SelectNext => {
                    let forward = event is SelectNext;
                    &&& r is None
                    &&& final(self).field_list@ == old(self).field_list@
                    &&& final(self).research_list@ == old(self).research_list@
                    &&& final(self).field_index == if old(self).field_list_focused {
                        stepped(old(self).field_index, old(self).field_list@.len(), forward)
                    } else {
                        old(self).field_index
                    }
                    &&& final(self).research_index == if !old(self).field_list_focused
                        && old(self).research_list_focused {
                        stepped(old(self).research_index, old(self).research_list@.len(), forward)
                    } else {
                        old(self).research_index
                    }
                    &&& final(self).field_list_focused == old(self).field_list_focused
                    &&& final(self).research_list_focused == old(self).research_list_focused
                    &&& final(self).research_selected == old(self).research_selected
                },
                MenuEvent::ContinueSelecting => {
                    &&& final(self).field_list@ == old(self).field_list@
                    &&& final(self).research_list@ == old(self).research_list@
                    &&& final(self).field_index == old(self).field_index
                    &&& final(self).research_index == 0
                    &&& !final(self).field_list_focused
                    &&& final(self).research_list_focused
                    &&& final(self).research_selected == old(self).research_selected
                    &&& if old(self).field_index < old(self).field_list@.len() {
                        r matches Some(MenuRequest::LoadResearchesForField(n)) && n@ == old(
                            self,
                        ).field_list@[old(self).field_index as int]@
                    } else {
                        r is None
                    }
                },
                MenuEvent::Select => {
                    let i = old(self).research_index as int;
                    &&& final(self).field_list@ == old(self).field_list@
                    &&& final(self).research_list@ == old(self).research_list@
                    &&& final(self).field_index == old(self).field_index
                    &&& final(self).research_index == old(self).research_index
                    &&& final(self).field_list_focused == old(self).field_list_focused
                    &&& !final(self).research_list_focused
                    &&& if i < old(self).research_list@.len() {
                        &&& final(self).research_selected matches Some(s)
                        &&& s@ == old(self).research_list@[i]@
                        &&& r matches Some(MenuRequest::LoadResearchInfo(n))
                        &&& n@ == old(self).research_list@[i]@
                    } else {
                        &&& r is None
                        &&& final(self).research_selected == old(self).research_selected
                    }
                },
            },
    {
        match event {
            MenuEvent::IngameTick => match &self.research_selected {
                Some(s) => Some(MenuRequest::LoadResearchInfo(s.clone())),
                None => None,
            },
            MenuEvent::MainAction => match &self.research_selected {
                Some(s) => Some(MenuRequest::StartResearch(s.clone())),
                None => None,
            },
            MenuEvent::FieldsLoaded(v) => {
                self.field_list = v;
                None
            },
            MenuEvent::ResearchesLoaded(v) => {
                self.research_list = v;
                None
            },
            MenuEvent::StartSelecting => {
                self.field_list_focused = true;
                None
            },
            MenuEvent::SelectPrevious => {
                self.move_selection(false);
                None
            },
            MenuEvent::SelectNext => {
                self.move_selection(true);
                None
            },
            MenuEvent::ContinueSelecting => {
                self.research_list_focused = true;
                self.field_list_focused = false;
                self.research_index = 0;
                if self.field_index < self.field_list.len() {
                    Some(MenuRequest::LoadResearchesForField(self.field_list[self.field_index].clone()))
                } else {
                    None
                }
            },
            MenuEvent::Select => {
                self.research_list_focused = false;
                if self.research_index < self.research_list.len() {
                    let s = self.research_list[self.research_index].clone();
                    let n = s.clone();
                    self.research_selected = Some(s);
                    Some(MenuRequest::LoadResearchInfo(n))
                } else {
                    None
                }
            },
        }
    }

    fn move_selection(&mut self, forward: bool)
        ensures
            final(self).field_list@ == old(self).field_list@,
            final(self).research_list@ == old(self).research_list@,
            final(self).field_index == if old(self).field_list_focused {
                stepped(old(self).field_index, old(self).field_list@.len(), forward)
            } else {
                old(self).field_index
            },
            final(self).research_index == if !old(self).field_list_focused
                && old(self).research_list_focused {
                stepped(old(self).research_index, old(self).research_list@.len(), forward)
            } else {
                old(self).research_index
            },
            final(self).field_list_focused == old(self).field_list_focused,
            final(self).research_list_focused == old(self).research_list_focused,
            final(self).research_selected == old(self).research_selected,
    {
        if self.field_list_focused {
            self.field_index = step(self.field_index, self.field_list.len(), forward);
        } else if self.research_list_focused {
            self.research_index = step(self.research_index, self.research_list.len(), forward);
        }
    }
}

} // verus!
