use vstd::prelude::*;

use crate::building::MenuColor;

verus! {

/// A kind of ship module offered in the design workflow.
#[derive(Debug, Clone)]
pub struct ShipModuleType {
    name: String,
    color: MenuColor,
}

impl View for ShipModuleType {
    type V = (Seq<char>, MenuColor);

    closed spec fn view(&self) -> (Seq<char>, MenuColor) {
        (self.name@, self.color)
    }
}

impl ShipModuleType {
    pub fn new(name: String, color: MenuColor) -> (r: ShipModuleType)
        ensures
            r@ == (name@, color),
    {
        ShipModuleType { name, color }
    }

    pub fn get_name(&self) -> (r: String)
        ensures
            r@ == self@.0,
    {
        self.name.clone()
    }

    pub fn get_menu_color(&self) -> (r: MenuColor)
        ensures
            r == self@.1,
    {
        self.color
    }
}

} // verus!
