use crate::arc_util::game::Profession;
use crate::data::constants::{DIMINISHED, MALNOURISHED};
use vstd::prelude::*;

verus! {

/// Build data.
#[derive(Debug)]
pub struct Build {
    pub prof: Profession,
    pub name: String,
    pub notes: String,
    pub food: u32,
    pub util: u32,
    /// Whether the build matches the current search.
    pub visible: bool,
}

impl Build {
    /// Creates a new build.
    pub fn new(prof: Profession, name: &str, notes: &str, food: u32, util: u32) -> (r: Self)
        ensures
            r.prof == prof,
            r.name@ == name@,
            r.notes@ == notes@,
            r.food == food,
            r.util == util,
            r.visible,
    {
        Self { prof, name: String::from_str(name), notes: String::from_str(notes), food, util, visible: true }
    }

    /// Creates a new empty build, reminding of Malnourished and Diminished.
    pub fn empty() -> (r: Self)
        ensures
            r.prof == Profession::Unknown,
            r.name@.len() == 0,
            r.notes@.len() == 0,
            r.food == MALNOURISHED,
            r.util == DIMINISHED,
            r.visible,
    {
        proof {
            reveal_strlit("");
        }
        Self::new(Profession::Unknown, "", "", MALNOURISHED, DIMINISHED)
    }

    /// Returns a copy of the build.
    pub fn duplicate(&self) -> (r: Self)
        ensures
            r == *self,
    {
        Build {
            prof: self.prof,
            name: self.name.clone(),
            notes: self.notes.clone(),
            food: self.food,
            util: self.util,
            visible: self.visible,
        }
    }
}

impl Default for Build {
    fn default() -> (r: Self)
        ensures
            r.prof == Profession::Unknown,
            r.food == MALNOURISHED,
            r.util == DIMINISHED,
            r.visible,
    {
        Self::empty()
    }
}

} // verus!
