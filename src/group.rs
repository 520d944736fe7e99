use vstd::prelude::*;

verus! {

/// The group an observation belongs to. It fixes which latent mean the
/// observation is drawn from: group one from `mu`, group two from `gamma`,
/// group three from their midpoint, group four from the `tau`-weighted
/// combination of the two.
#[derive(Clone, Copy, Debug, PartialEq, Eq, Structural)]
pub enum Group {
    One,
    Two,
    Three,
    Four,
}

/// The group that a code of a data row names, if any: codes 1 to 4.
pub open spec fn group_of_code(code: u8) -> Option<Group> {
    if code == 1 {
        Some(Group::One)
    } else if code == 2 {
        Some(Group::Two)
    } else if code == 3 {
        Some(Group::Three)
    } else if code == 4 {
        Some(Group::Four)
    } else {
        None
    }
}

/// The code that a data row writes for a group.
pub open spec fn code_of_group(g: Group) -> u8 {
    match g {
        Group::One => 1,
        Group::Two => 2,
        Group::Three => 3,
        Group::Four => 4,
    }
}

impl Group {
    /// Reads a group code; any code outside 1..=4 names no group.
    pub fn from_code(code: u8) -> (r: Option<Group>)
        ensures
            r == group_of_code(code),
            r.is_some() <==> 1 <= code <= 4,
    {
        match code {
            1 => Some(Group::One),
            2 => Some(Group::Two),
            3 => Some(Group::Three),
            4 => Some(Group::Four),
            _ => None,
        }
    }

    /// The code written for this group in a data row.
    pub fn code(self) -> (r: u8)
        ensures
            r == code_of_group(self),
            1 <= r <= 4,
    {
        match self {
            Group::One => 1,
            Group::Two => 2,
            Group::Three => 3,
            Group::Four => 4,
        }
    }
}

/// Reading back the code of a group gives that group.
pub proof fn lemma_code_round_trip(g: Group)
    ensures
        group_of_code(code_of_group(g)) == Some(g),
{
}

/// A code that names a group is the code of that group.
pub proof fn lemma_group_round_trip(code: u8)
    requires
        group_of_code(code).is_some(),
    ensures
        code_of_group(group_of_code(code).unwrap()) == code,
{
}

} // verus!
