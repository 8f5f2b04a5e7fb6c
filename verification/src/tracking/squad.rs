//! Squad members and their tracked buffs.

use super::buff::Buffs;
use crate::arc_util::game::{Profession, Specialization};
use crate::text::chars_of;
use vstd::prelude::*;

verus! {

/// Whether `p` is the player described by an ArcDPS tracking change.
///
/// The account name loses a leading `:`, unknown profession and specialization codes map to
/// their `Unknown` variants.
pub open spec fn tracking_player(
    p: SquadPlayer,
    id: usize,
    character: Seq<char>,
    account: Seq<char>,
    prof: u32,
    elite: u32,
    subgroup: u16,
    is_self: u32,
) -> bool {
    &&& p.id == id
    &&& p.character@ == character
    &&& p.account@ == account_name(account)
    &&& p.is_self == (is_self != 0)
    &&& p.profession.code() == prof || (p.profession == Profession::Unknown)
    &&& forall|v: Profession| #[trigger] v.code() == prof ==> p.profession == v
    &&& p.elite.code() == elite || (p.elite == Specialization::Unknown)
    &&& forall|v: Specialization| #[trigger] v.code() == elite ==> p.elite == v
    &&& p.subgroup == subgroup
}

/// A squad member as reported by ArcDPS.
#[derive(Debug)]
pub struct SquadPlayer {
    /// Player id given by the game.
    pub id: usize,
    /// Player character name.
    pub character: String,
    /// Player account name.
    pub account: String,
    /// Whether the player is the local player.
    pub is_self: bool,
    /// Profession (class) of the player character.
    pub profession: Profession,
    /// Current elite specialization the player has equipped.
    pub elite: Specialization,
    /// Current squad subgroup the player is in.
    pub subgroup: usize,
}

/// The account name without the leading `:` ArcDPS reports it with.
pub open spec fn account_name(reported: Seq<char>) -> Seq<char> {
    if reported.len() > 0 && reported[0] == ':' {
        reported.drop_first()
    } else {
        reported
    }
}

/// Returns the account name without the leading `:` ArcDPS reports.
pub fn strip_account(account: &str) -> (r: String)
    ensures
        r@ == account_name(account@),
{
    let chars = chars_of(account);
    let mut name = String::new();
    let start: usize = if chars.len() > 0 && chars[0] == ':' { 1 } else { 0 };
    let mut i = start;
    while i < chars.len()
        invariant
            chars@ == account@,
            start <= i <= chars.len(),
            start == (if chars@.len() > 0 && chars@[0] == ':' { 1usize } else { 0usize }),
            name@ == chars@.subrange(start as int, i as int),
        decreases chars.len() - i,
    {
        push_char(&mut name, chars[i]);
        proof {
            assert(chars@.subrange(start as int, i + 1) == chars@.subrange(start as int, i as int).push(chars@[i as int]));
        }
        i = i + 1;
    }
    proof {
        assert(account_name(account@) == chars@.subrange(start as int, chars@.len() as int));
    }
    name
}

impl SquadPlayer {
    /// Creates a new squad player.
    pub fn new(
        id: usize,
        character: &str,
        account: &str,
        is_self: bool,
        profession: Profession,
        elite: Specialization,
        subgroup: usize,
    ) -> (r: Self)
        ensures
            r.id == id,
            r.character@ == character@,
            r.account@ == account@,
            r.is_self == is_self,
            r.profession == profession,
            r.elite == elite,
            r.subgroup == subgroup,
    {
        SquadPlayer {
            id,
            character: String::from_str(character),
            account: String::from_str(account),
            is_self,
            profession,
            elite,
            subgroup,
        }
    }

    /// Creates a player from an ArcDPS tracking change.
    ///
    /// The source agent holds the id and character name, the destination agent the account
    /// name (with a leading `:`), profession, elite specialization, subgroup and whether it is
    /// the local player. Returns [`None`] if a name is missing.
    pub fn from_tracking_change(
        id: usize,
        character: Option<&str>,
        account: Option<&str>,
        prof: u32,
        elite: u32,
        subgroup: u16,
        is_self: u32,
    ) -> (r: Option<Self>)
        ensures
            match (character, account) {
                (Some(c), Some(a)) => r matches Some(p) && tracking_player(p, id, c@, a@, prof, elite, subgroup, is_self),
                _ => r is None,
            },
    {
        match (character, account) {
            (Some(character), Some(account)) => {
                let name = strip_account(account);
                Some(SquadPlayer {
                    id,
                    character: String::from_str(character),
                    account: name,
                    is_self: is_self != 0,
                    profession: Profession::from_primitive(prof),
                    elite: Specialization::from_primitive(elite),
                    subgroup: subgroup as usize,
                })
            },
            _ => None,
        }
    }

    /// Returns a copy of the player.
    pub fn duplicate(&self) -> (r: Self)
        ensures
            r == *self,
    {
        SquadPlayer {
            id: self.id,
            character: self.character.clone(),
            account: self.account.clone(),
            is_self: self.is_self,
            profession: self.profession,
            elite: self.elite,
            subgroup: self.subgroup,
        }
    }
}

/// Appends a character to a string.
///
/// Calls `String::push`, which vstd gives no specification; the contract claims that the
/// characters of the string afterwards are those before it followed by `c`.
#[verifier::external_body]
fn push_char(s: &mut String, c: char)
    ensures
        final(s)@ == old(s)@.push(c),
{
    s.push(c);
}

/// A tracked squad member with their buffs.
#[derive(Debug)]
pub struct TrackerEntry {
    /// The squad member.
    pub player: SquadPlayer,
    /// Buffs of the squad member.
    pub data: Buffs,
}

impl TrackerEntry {
    /// Creates a new entry.
    pub fn new(player: SquadPlayer, data: Buffs) -> (r: Self)
        ensures
            r == (TrackerEntry { player, data }),
    {
        TrackerEntry { player, data }
    }

    /// Returns a copy of the entry.
    pub fn duplicate(&self) -> (r: Self)
        ensures
            r.player == self.player,
            r.data.food == self.data.food,
            r.data.util == self.data.util,
            r.data.custom@ == self.data.custom@,
    {
        TrackerEntry { player: self.player.duplicate(), data: self.data.duplicate() }
    }
}

} // verus!
