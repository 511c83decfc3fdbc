use vstd::prelude::*;

verus! {

/// The screens of the presentation layer.
#[derive(Debug, Clone, Copy, PartialEq, Eq, Structural)]
pub enum Tabs {
    SystemView,
    Research,
    Colonies,
    ShipModules,
}

pub open spec fn tab_title(t: Tabs) -> Seq<char> {
    match t {
        Tabs::SystemView => "System View"@,
        Tabs::Research => "Research"@,
        Tabs::Colonies => "Colonies"@,
        Tabs::ShipModules => "Ship modules"@,
    }
}

impl Tabs {
    pub fn get_name(&self) -> (r: String)
        ensures
            r@ == tab_title(*self),
    {
        match self {
            Tabs::SystemView => "System View".to_owned(),
            Tabs::Research => "Research".to_owned(),
            Tabs::Colonies => "Colonies".to_owned(),
            Tabs::ShipModules => "Ship modules".to_owned(),
        }
    }
}

/// The position after `current` in a list of `len` entries, wrapping
/// round to the first.
pub fn select_next_in_list(current: usize, len: usize) -> (r: usize)
    requires
        current < len,
    ensures
        r == if current + 1 == len {
            0
        } else {
            current + 1
        },
        r < len,
{
    if current + 1 == len {
        0
    } else {
        current + 1
    }
}

/// The position before `current` in a list of `len` entries, wrapping
/// round to the last.
pub fn select_prev_in_list(current: usize, len: usize) -> (r: usize)
    requires
        current < len,
    ensures
        r == if current == 0 {
            len - 1
        } else {
            current - 1
        },
        r < len,
{
    if current == 0 {
        len - 1
    } else {
        current - 1
    }
}

} // verus!
