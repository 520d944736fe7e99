use vstd::prelude::*;

use crate::group::{Group, group_of_code, code_of_group};

verus! {

/// Why a column of group codes cannot be used for inference.
#[derive(Clone, Copy, Debug, PartialEq, Eq, Structural)]
pub enum DataError {
    /// The row at index `row` carries `code`, which names no group.
    InvalidGroup { row: usize, code: u8 },
    /// No row belongs to `group`, so its coordinate means are undefined.
    EmptyGroup { group: Group },
}

/// How many entries of `s` are `g`.
pub open spec fn count_in(s: Seq<Group>, g: Group) -> nat
    decreases s.len(),
{
    if s.len() == 0 {
        0
    } else {
        count_in(s.drop_last(), g) + if s.last() == g { 1nat } else { 0nat }
    }
}

/// Every code of `codes` names a group.
pub open spec fn all_valid(codes: Seq<u8>) -> bool {
    forall|i: int| 0 <= i < codes.len() ==> (#[trigger] group_of_code(codes[i])).is_some()
}

/// `row` is the first index of `codes` whose code names no group.
pub open spec fn first_invalid(codes: Seq<u8>, row: int) -> bool {
    &&& 0 <= row < codes.len()
    &&& group_of_code(codes[row]).is_none()
    &&& all_valid(codes.subrange(0, row))
}

/// The groups that a column of valid codes names, row by row.
pub open spec fn groups_of(codes: Seq<u8>) -> Seq<Group> {
    codes.map_values(|c: u8| group_of_code(c).unwrap())
}

/// The number of rows in each group.
#[derive(Clone, Copy, Debug, PartialEq, Eq, Structural)]
pub struct GroupCounts {
    pub n1: usize,
    pub n2: usize,
    pub n3: usize,
    pub n4: usize,
}

impl GroupCounts {
    pub open spec fn spec_count(self, g: Group) -> nat {
        match g {
            Group::One => self.n1 as nat,
            Group::Two => self.n2 as nat,
            Group::Three => self.n3 as nat,
            Group::Four => self.n4 as nat,
        }
    }

    /// The counts are those of the rows of `s`.
    pub open spec fn counts_of(self, s: Seq<Group>) -> bool {
        forall|g: Group| #[trigger] self.spec_count(g) == count_in(s, g)
    }

    /// The number of rows in group `g`.
    pub fn count(&self, g: Group) -> (r: usize)
        ensures
            r == self.spec_count(g),
    {
        match g {
            Group::One => self.n1,
            Group::Two => self.n2,
            Group::Three => self.n3,
            Group::Four => self.n4,
        }
    }
}

/// Counting all four groups accounts for every row once.
pub proof fn lemma_counts_partition(s: Seq<Group>)
    ensures
        count_in(s, Group::One) + count_in(s, Group::Two) + count_in(s, Group::Three)
            + count_in(s, Group::Four) == s.len(),
    decreases s.len(),
{
    if s.len() > 0 {
        lemma_counts_partition(s.drop_last());
    }
}

/// Reads a column of group codes. It fails on the first code that names no
/// group, and otherwise gives each row's group.
pub fn parse_groups(codes: &Vec<u8>) -> (r: Result<Vec<Group>, DataError>)
    ensures
        r is Ok <==> all_valid(codes@),
        r matches Ok(gs) ==> gs@ == groups_of(codes@),
        r matches Err(e) ==> (e matches DataError::InvalidGroup { row, code }
            && first_invalid(codes@, row as int) && code == codes@[row as int]),
{
    let mut out: Vec<Group> = Vec::new();
    let mut i: usize = 0;
    while i < codes.len()
        invariant
            i <= codes.len(),
            all_valid(codes@.subrange(0, i as int)),
            out@ == groups_of(codes@.subrange(0, i as int)),
        decreases codes.len() - i,
    {
        let code = codes[i];
        match Group::from_code(code) {
            Some(g) => {
                out.push(g);
                proof {
                    let next = codes@.subrange(0, i + 1);
                    assert(next == codes@.subrange(0, i as int).push(code));
                    assert(all_valid(next)) by {
                        assert forall|j: int| 0 <= j < next.len() implies (#[trigger] group_of_code(
                            next[j],
                        )).is_some() by {
                            if j < i {
                                assert(next[j] == codes@.subrange(0, i as int)[j]);
                            }
                        }
                    }
                    assert(out@ =~= groups_of(next));
                }
            },
            None => {
                return Err(DataError::InvalidGroup { row: i, code });
            },
        }
        i = i + 1;
    }
    assert(codes@.subrange(0, codes.len() as int) == codes@);
    Ok(out)
}

/// Counts the rows of each group.
pub fn count_groups(groups: &Vec<Group>) -> (r: GroupCounts)
    ensures
        r.counts_of(groups@),
{
    let mut c = GroupCounts { n1: 0, n2: 0, n3: 0, n4: 0 };
    let mut i: usize = 0;
    while i < groups.len()
        invariant
            i <= groups.len(),
            c.counts_of(groups@.subrange(0, i as int)),
            c.n1 + c.n2 + c.n3 + c.n4 == i,
        decreases groups.len() - i,
    {
        let ghost before = groups@.subrange(0, i as int);
        let ghost next = groups@.subrange(0, i + 1);
        let ghost c0 = c;
        assert(next.drop_last() == before);
        assert(next.last() == groups@[i as int]);
        match groups[i] {
            Group::One => c.n1 = c.n1 + 1,
            Group::Two => c.n2 = c.n2 + 1,
            Group::Three => c.n3 = c.n3 + 1,
            Group::Four => c.n4 = c.n4 + 1,
        }
        i = i + 1;
        assert(c.counts_of(next)) by {
            assert forall|g: Group| #[trigger] c.spec_count(g) == count_in(next, g) by {
                assert(c0.spec_count(g) == count_in(before, g));
                assert(count_in(next, g) == count_in(before, g) + if next.last() == g { 1nat } else { 0nat });
            }
        }
    }
    assert(groups@.subrange(0, groups.len() as int) == groups@);
    c
}

/// The first group, in label order, with no rows, if any.
pub open spec fn first_empty(c: GroupCounts) -> Option<Group> {
    if c.n1 == 0 {
        Some(Group::One)
    } else if c.n2 == 0 {
        Some(Group::Two)
    } else if c.n3 == 0 {
        Some(Group::Three)
    } else if c.n4 == 0 {
        Some(Group::Four)
    } else {
        None
    }
}

/// Fails on the first group, in label order, that has no rows.
pub fn check_populated(c: &GroupCounts) -> (r: Result<(), DataError>)
    ensures
        r is Ok <==> (c.n1 > 0 && c.n2 > 0 && c.n3 > 0 && c.n4 > 0),
        r matches Err(e) ==> first_empty(*c) matches Some(g) && e == (DataError::EmptyGroup { group: g }),
{
    if c.n1 == 0 {
        Err(DataError::EmptyGroup { group: Group::One })
    } else if c.n2 == 0 {
        Err(DataError::EmptyGroup { group: Group::Two })
    } else if c.n3 == 0 {
        Err(DataError::EmptyGroup { group: Group::Three })
    } else if c.n4 == 0 {
        Err(DataError::EmptyGroup { group: Group::Four })
    } else {
        Ok(())
    }
}

/// The counts of `s`, group by group.
pub open spec fn counts_spec(s: Seq<Group>) -> GroupCounts {
    GroupCounts {
        n1: count_in(s, Group::One) as usize,
        n2: count_in(s, Group::Two) as usize,
        n3: count_in(s, Group::Three) as usize,
        n4: count_in(s, Group::Four) as usize,
    }
}

/// The group column of an observation set that every engine can use: every
/// row names a group, and every group has at least one row.
pub struct Labels {
    groups: Vec<Group>,
    counts: GroupCounts,
}

impl Labels {
    pub closed spec fn view_groups(&self) -> Seq<Group> {
        self.groups@
    }

    pub closed spec fn spec_counts(&self) -> GroupCounts {
        self.counts
    }

    #[verifier::type_invariant]
    closed spec fn wf(&self) -> bool {
        &&& self.counts.counts_of(self.groups@)
        &&& self.counts.n1 > 0 && self.counts.n2 > 0 && self.counts.n3 > 0 && self.counts.n4 > 0
    }

    /// Validates a column of group codes: the first code that names no group
    /// is an error, and then the first group, in label order, without rows.
    pub fn from_codes(codes: &Vec<u8>) -> (r: Result<Labels, DataError>)
        ensures
            r is Ok <==> all_valid(codes@) && first_empty(counts_spec(groups_of(codes@))) is None,
            r matches Ok(l) ==> l.view_groups() == groups_of(codes@)
                && l.spec_counts() == counts_spec(groups_of(codes@)),
            !all_valid(codes@) ==> (r matches Err(DataError::InvalidGroup { row, code })
                && first_invalid(codes@, row as int) && code == codes@[row as int]),
            all_valid(codes@) && first_empty(counts_spec(groups_of(codes@))) is Some ==> r
                == Err::<Labels, DataError>(
                DataError::EmptyGroup { group: first_empty(counts_spec(groups_of(codes@))).unwrap() },
            ),
    {
        let groups = match parse_groups(codes) {
            Ok(gs) => gs,
            Err(e) => {
                return Err(e);
            },
        };
        let counts = count_groups(&groups);
        proof {
            lemma_counts_partition(groups@);
            assert(counts.spec_count(Group::One) == count_in(groups@, Group::One));
            assert(counts.spec_count(Group::Two) == count_in(groups@, Group::Two));
            assert(counts.spec_count(Group::Three) == count_in(groups@, Group::Three));
            assert(counts.spec_count(Group::Four) == count_in(groups@, Group::Four));
            assert(counts == counts_spec(groups@));
        }
        match check_populated(&counts) {
            Ok(()) => Ok(Labels { groups, counts }),
            Err(e) => Err(e),
        }
    }

    /// The number of rows.
    pub fn len(&self) -> (r: usize)
        ensures
            r == self.view_groups().len(),
    {
        self.groups.len()
    }

    /// The group of row `i`.
    pub fn group(&self, i: usize) -> (r: Group)
        requires
            i < self.view_groups().len(),
        ensures
            r == self.view_groups()[i as int],
    {
        self.groups[i]
    }

    /// The number of rows in each group; none of them is zero.
    pub fn counts(&self) -> (r: GroupCounts)
        ensures
            r == self.spec_counts(),
            r.counts_of(self.view_groups()),
            r.n1 > 0 && r.n2 > 0 && r.n3 > 0 && r.n4 > 0,
    {
        proof {
            use_type_invariant(self);
        }
        self.counts
    }
}

} // verus!
