//! Actions on ordered lists in UI.

use vstd::prelude::*;

verus! {

/// An action for ordered lists in UI.
#[derive(Debug, Clone, Copy, PartialEq, Eq, Structural)]
pub enum Action {
    NoAction,
    Remove(usize),
    Up(usize),
    Down(usize),
}

impl Default for Action {
    fn default() -> (r: Self)
        ensures
            r == Action::NoAction,
    {
        Action::NoAction
    }
}

/// Whether the action can be performed on a list of length `len`.
pub open spec fn action_fits(action: Action, len: nat) -> bool {
    match action {
        Action::NoAction => true,
        Action::Remove(i) => i < len,
        Action::Up(i) => 1 <= i < len,
        Action::Down(i) => i + 1 < len,
    }
}

/// The list after performing the action.
pub open spec fn performed<T>(action: Action, s: Seq<T>) -> Seq<T> {
    match action {
        Action::NoAction => s,
        Action::Remove(i) => s.remove(i as int),
        Action::Up(i) => s.update(i - 1, s[i as int]).update(i as int, s[i - 1]),
        Action::Down(i) => s.update(i as int, s[i + 1]).update(i + 1, s[i as int]),
    }
}

impl Action {
    /// Handles the action buttons of the entry at `index` in a list of length `len`.
    ///
    /// The up button has no effect on the first entry, the down button none on the last entry.
    /// Later buttons take precedence: remove over down over up.
    pub fn render_buttons(&mut self, index: usize, len: usize, up_clicked: bool, down_clicked: bool, remove_clicked: bool)
        requires
            len >= 1,
        ensures
            *final(self) == (if remove_clicked {
                Action::Remove(index)
            } else if down_clicked && index != len - 1 {
                Action::Down(index)
            } else if up_clicked && index != 0 {
                Action::Up(index)
            } else {
                *old(self)
            }),
    {
        let is_first = index == 0;
        let is_last = index == len - 1;
        if up_clicked && !is_first {
            *self = Action::Up(index);
        }
        if down_clicked && !is_last {
            *self = Action::Down(index);
        }
        if remove_clicked {
            *self = Action::Remove(index);
        }
    }

    /// Performs the action on a [`Vec`].
    pub fn perform<T>(&self, vec: &mut Vec<T>)
        requires
            action_fits(*self, old(vec)@.len()),
        ensures
            final(vec)@ == performed(*self, old(vec)@),
    {
        match *self {
            Action::NoAction => {},
            Action::Up(i) => {
                let moved = vec.remove(i);
                vec.insert(i - 1, moved);
                proof {
                    assert(vec@ =~= performed(*self, old(vec)@));
                }
            },
            Action::Down(i) => {
                let len = vec.len();
                assert(i + 1 < len);
                let moved = vec.remove(i + 1);
                vec.insert(i, moved);
                proof {
                    assert(vec@ =~= performed(*self, old(vec)@));
                }
            },
            Action::Remove(i) => {
                vec.remove(i);
            },
        }
    }
}

/// Moving an entry up and the entry above it down again restores the list.
pub proof fn law_up_then_down<T>(s: Seq<T>, i: usize)
    requires
        1 <= i < s.len(),
    ensures
        performed(Action::Down((i - 1) as usize), performed(Action::Up(i), s)) == s,
{
    assert(performed(Action::Down((i - 1) as usize), performed(Action::Up(i), s)) =~= s);
}

/// Performing an action keeps all entries but a removed one.
pub proof fn law_perform_length<T>(action: Action, s: Seq<T>)
    requires
        action_fits(action, s.len()),
    ensures
        performed(action, s).len() == (if action is Remove { s.len() - 1 } else { s.len() as int }),
{
}

} // verus!
