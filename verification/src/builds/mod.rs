//! User-defined builds.

pub mod build_entry;

use crate::action::{action_fits, performed, Action};
use crate::arc_util::game::Profession;
use crate::text::{contains_str, has_substring, lowercase, to_lowercase};
use crate::tracking::buff::BuffState;
use build_entry::Build;
use vstd::prelude::*;

verus! {

/// Whether a build with the given name & notes matches the search.
///
/// An empty search matches all builds, otherwise the lowercase name or notes must contain it.
pub open spec fn search_matches(name: Seq<char>, notes: Seq<char>, search: Seq<char>) -> bool {
    search.len() == 0 || has_substring(lowercase(name), search) || has_substring(lowercase(notes), search)
}

/// Whether a build for `prof` is shown with the profession filter.
pub open spec fn prof_matches(filter_prof: bool, current: Option<Profession>, prof: Profession) -> bool {
    !filter_prof || match current {
        Some(current) => current == prof,
        None => true,
    }
}

/// How a buff of a build compares to the buff currently applied.
#[derive(Debug, Clone, Copy, PartialEq, Eq, Structural)]
pub enum BuildBuffStatus {
    /// The current buff is not known.
    Unknown,
    /// The build buff is applied.
    Applied,
    /// The build buff is not applied.
    Missing,
}

/// Compares a buff of a build to the buff currently applied.
pub fn build_buff_status(current: BuffState<u32>, build_buff: u32) -> (r: BuildBuffStatus)
    ensures
        r == (match current {
            BuffState::Unknown => BuildBuffStatus::Unknown,
            BuffState::Applied(id) => if id == build_buff { BuildBuffStatus::Applied } else { BuildBuffStatus::Missing },
            BuffState::Empty => BuildBuffStatus::Missing,
        }),
{
    match current {
        BuffState::Unknown => BuildBuffStatus::Unknown,
        BuffState::Applied(id) => if id == build_buff { BuildBuffStatus::Applied } else { BuildBuffStatus::Missing },
        BuffState::Empty => BuildBuffStatus::Missing,
    }
}

/// Component for user-defined builds.
#[derive(Debug)]
pub struct Builds {
    /// User-defined builds.
    pub entries: Vec<Build>,
    /// Whether to display notes as table column.
    pub display_notes: bool,
    /// Whether to filter builds by profession.
    pub filter_prof: bool,
    /// Current search contents.
    pub search: String,
    /// Edit mode.
    pub edit: bool,
}

impl Builds {
    /// Creates new builds without entries.
    pub fn new() -> (r: Self)
        ensures
            r.entries@.len() == 0,
            r.display_notes,
            !r.filter_prof,
            r.search@.len() == 0,
            !r.edit,
    {
        Self { entries: Vec::new(), display_notes: true, filter_prof: false, search: String::new(), edit: false }
    }

    /// Returns the current search contents.
    pub fn search(&self) -> (r: &str)
        ensures
            r@ == self.search@,
    {
        self.search.as_str()
    }

    /// Whether edit mode is active.
    pub fn is_editing(&self) -> (r: bool)
        ensures
            r == self.edit,
    {
        self.edit
    }

    /// Refreshes build visibility according to search.
    pub fn refresh_search(&mut self)
        ensures
            final(self).entries@.len() == old(self).entries@.len(),
            forall|i: int| 0 <= i < final(self).entries@.len() ==> (#[trigger] final(self).entries@[i]) == (Build {
                visible: search_matches(old(self).entries@[i].name@, old(self).entries@[i].notes@, old(self).search@),
                ..old(self).entries@[i]
            }),
            final(self).display_notes == old(self).display_notes,
            final(self).filter_prof == old(self).filter_prof,
            final(self).search@ == old(self).search@,
            final(self).edit == old(self).edit,
    {
        let mut entries: Vec<Build> = Vec::new();
        std::mem::swap(&mut entries, &mut self.entries);
        let ghost all = entries@;
        let mut refreshed: Vec<Build> = Vec::new();
        for build in it: entries
            invariant
                it.seq() == all,
                refreshed@.len() == it.index(),
                forall|k: int| 0 <= k < it.index() ==> (#[trigger] refreshed@[k]) == (Build {
                    visible: search_matches(all[k].name@, all[k].notes@, self.search@),
                    ..all[k]
                }),
        {
            let mut build = build;
            let visible = self.search.as_str().is_empty()
                || contains_str(to_lowercase(build.name.as_str()).as_str(), self.search.as_str())
                || contains_str(to_lowercase(build.notes.as_str()).as_str(), self.search.as_str());
            build.visible = visible;
            refreshed.push(build);
        }
        self.entries = refreshed;
    }

    /// Sets the search contents and refreshes build visibility.
    pub fn set_search(&mut self, search: String)
        ensures
            final(self).search@ == search@,
            final(self).entries@.len() == old(self).entries@.len(),
            forall|i: int| 0 <= i < final(self).entries@.len() ==> (#[trigger] final(self).entries@[i]) == (Build {
                visible: search_matches(old(self).entries@[i].name@, old(self).entries@[i].notes@, search@),
                ..old(self).entries@[i]
            }),
            final(self).display_notes == old(self).display_notes,
            final(self).filter_prof == old(self).filter_prof,
            final(self).edit == old(self).edit,
    {
        self.search = search;
        self.refresh_search();
    }

    /// Toggles edit mode, refreshing build visibility when leaving it.
    pub fn toggle_edit(&mut self)
        ensures
            final(self).edit == !old(self).edit,
            final(self).search@ == old(self).search@,
            final(self).entries@.len() == old(self).entries@.len(),
            forall|i: int| 0 <= i < final(self).entries@.len() ==> (#[trigger] final(self).entries@[i]) == (
                if old(self).edit {
                    Build {
                        visible: search_matches(old(self).entries@[i].name@, old(self).entries@[i].notes@, old(self).search@),
                        ..old(self).entries@[i]
                    }
                } else {
                    old(self).entries@[i]
                }),
            final(self).display_notes == old(self).display_notes,
            final(self).filter_prof == old(self).filter_prof,
    {
        if self.edit {
            self.edit = false;
            self.refresh_search();
        } else {
            self.edit = true;
        }
    }

    /// Returns the indices of the builds shown in viewing mode, in order.
    ///
    /// Builds are shown if they match the search and the profession filter.
    pub fn shown_builds(&self, current_prof: Option<Profession>) -> (r: Vec<usize>)
        ensures
            forall|k: int| 0 <= k < r@.len() ==> #[trigger] r@[k] < self.entries@.len(),
            forall|k: int, l: int| 0 <= k < l < r@.len() ==> #[trigger] r@[k] < #[trigger] r@[l],
            forall|i: int| 0 <= i < self.entries@.len() ==> (r@.contains(i as usize) <==> (#[trigger] self.entries@[i]).visible
                && prof_matches(self.filter_prof, current_prof, self.entries@[i].prof)),
    {
        let mut r: Vec<usize> = Vec::new();
        let mut i: usize = 0;
        while i < self.entries.len()
            invariant
                i <= self.entries.len(),
                forall|k: int| 0 <= k < r@.len() ==> #[trigger] r@[k] < i,
                forall|k: int, l: int| 0 <= k < l < r@.len() ==> #[trigger] r@[k] < #[trigger] r@[l],
                forall|j: int| 0 <= j < i ==> (r@.contains(j as usize) <==> (#[trigger] self.entries@[j]).visible
                    && prof_matches(self.filter_prof, current_prof, self.entries@[j].prof)),
            decreases self.entries.len() - i,
        {
            let build = &self.entries[i];
            let prof_ok = !self.filter_prof || match current_prof {
                Some(prof) => prof == build.prof,
                None => true,
            };
            let ghost prev = r@;
            if build.visible && prof_ok {
                r.push(i);
            }
            proof {
                assert forall|j: int| 0 <= j < i + 1 implies (r@.contains(j as usize) <==> (#[trigger] self.entries@[j]).visible
                    && prof_matches(self.filter_prof, current_prof, self.entries@[j].prof)) by {
                    if r@.contains(j as usize) && j < i {
                        let k = choose|k: int| 0 <= k < r@.len() && r@[k] == j as usize;
                        if k < prev.len() { assert(prev[k] == j as usize); } else { assert(r@[k] == i); }
                    }
                    if j < i && prev.contains(j as usize) {
                        let k = choose|k: int| 0 <= k < prev.len() && prev[k] == j as usize;
                        assert(r@[k] == j as usize);
                    }
                    if j == i && r@.contains(j as usize) {
                        let k = choose|k: int| 0 <= k < r@.len() && r@[k] == j as usize;
                        if k < prev.len() { assert(prev[k] < i); }
                    }
                    if j == i && build.visible && prof_ok {
                        assert(r@[prev.len() as int] == i);
                    }
                }
            }
            i = i + 1;
        }
        r
    }

    /// Performs an action of the edit mode on the builds.
    pub fn perform(&mut self, action: Action)
        requires
            action_fits(action, old(self).entries@.len()),
        ensures
            final(self).entries@ == performed(action, old(self).entries@),
            final(self).display_notes == old(self).display_notes,
            final(self).filter_prof == old(self).filter_prof,
            final(self).search@ == old(self).search@,
            final(self).edit == old(self).edit,
    {
        action.perform(&mut self.entries);
    }

    /// Adds an empty build.
    pub fn add_build(&mut self)
        ensures
            final(self).entries@.len() == old(self).entries@.len() + 1,
            final(self).entries@.drop_last() == old(self).entries@,
            final(self).entries@.last().prof == Profession::Unknown,
            final(self).entries@.last().name@.len() == 0,
            final(self).entries@.last().notes@.len() == 0,
            final(self).entries@.last().food == crate::data::constants::MALNOURISHED,
            final(self).entries@.last().util == crate::data::constants::DIMINISHED,
            final(self).entries@.last().visible,
            final(self).display_notes == old(self).display_notes,
            final(self).filter_prof == old(self).filter_prof,
            final(self).search@ == old(self).search@,
            final(self).edit == old(self).edit,
    {
        self.entries.push(Build::empty());
    }

    /// Loads the saved builds and display options.
    pub fn load_settings(&mut self, loaded: Builds)
        ensures
            final(self).entries@ == loaded.entries@,
            final(self).display_notes == loaded.display_notes,
            final(self).filter_prof == loaded.filter_prof,
            final(self).search@ == old(self).search@,
            final(self).edit == old(self).edit,
    {
        self.entries = loaded.entries;
        self.display_notes = loaded.display_notes;
        self.filter_prof = loaded.filter_prof;
    }

    /// Returns a copy of the builds to save.
    ///
    /// The copy has no search and is not in edit mode.
    pub fn current_settings(&self) -> (r: Builds)
        ensures
            r.entries@ == self.entries@,
            r.display_notes == self.display_notes,
            r.filter_prof == self.filter_prof,
            r.search@.len() == 0,
            !r.edit,
    {
        let mut entries: Vec<Build> = Vec::new();
        let mut i: usize = 0;
        while i < self.entries.len()
            invariant
                i <= self.entries.len(),
                entries@ == self.entries@.take(i as int),
            decreases self.entries.len() - i,
        {
            entries.push(self.entries[i].duplicate());
            proof { assert(self.entries@.take(i + 1) == self.entries@.take(i as int).push(self.entries@[i as int])); }
            i = i + 1;
        }
        proof { assert(self.entries@.take(self.entries.len() as int) == self.entries@); }
        Builds { entries, display_notes: self.display_notes, filter_prof: self.filter_prof, search: String::new(), edit: false }
    }
}

impl Default for Builds {
    fn default() -> (r: Self)
        ensures
            r.entries@.len() == 0,
            r.display_notes,
            !r.filter_prof,
    {
        Self::new()
    }
}

} // verus!
