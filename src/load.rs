//! Which policy each canton's tables follow, and which scales apply to whom.

use crate::schema::Group;
use crate::table::EvalPolicy;
use crate::text::chars_of;
use vstd::prelude::*;

verus! {

/// A canton code that no policy is known for.
#[derive(Clone, PartialEq, Eq, Debug)]
pub struct UnknownCanton {
    pub canton: String,
}

/// The policy of the canton with the two-letter code `a b` (`CH`: the
/// federal tables).
pub open spec fn policy_of_code(a: char, b: char) -> Option<EvalPolicy> {
    match (a, b) {
        ('B', 'L') | ('G', 'E') | ('G', 'R') | ('S', 'O') => Some(EvalPolicy::Raw),
        ('U', 'R') => Some(EvalPolicy::NoSplitRaw),
        ('A', 'G') => Some(EvalPolicy::Round100),
        ('A', 'I') | ('F', 'R') | ('G', 'L') | ('N', 'E') | ('N', 'W') | ('S', 'G') | ('S', 'H')
        | ('S', 'Z') | ('T', 'G') | ('V', 'D') => Some(EvalPolicy::DoubleRound100),
        ('A', 'R') | ('B', 'E') | ('B', 'S') | ('J', 'U') | ('L', 'U') | ('O', 'W') | ('T', 'I')
        | ('Z', 'G') | ('Z', 'H') | ('C', 'H') => Some(EvalPolicy::NoSplitRound100),
        ('V', 'S') => Some(EvalPolicy::Valais),
        _ => None,
    }
}

/// The policy of a canton code, if it is a known code.
pub open spec fn policy_of_canton(canton: Seq<char>) -> Option<EvalPolicy> {
    if canton.len() == 2 {
        policy_of_code(canton[0], canton[1])
    } else {
        None
    }
}

/// The evaluation policy of a canton's tables.
pub fn canton_policy(canton: &str) -> (r: Result<EvalPolicy, UnknownCanton>)
    ensures
        match r {
            Ok(p) => policy_of_canton(canton@) == Some(p),
            Err(e) => policy_of_canton(canton@) is None && e.canton@ == canton@,
        },
{
    let cs = chars_of(canton);
    let found = if cs.len() == 2 {
        match (cs[0], cs[1]) {
            ('B', 'L') | ('G', 'E') | ('G', 'R') | ('S', 'O') => Some(EvalPolicy::Raw),
            ('U', 'R') => Some(EvalPolicy::NoSplitRaw),
            ('A', 'G') => Some(EvalPolicy::Round100),
            ('A', 'I') | ('F', 'R') | ('G', 'L') | ('N', 'E') | ('N', 'W') | ('S', 'G') | (
                'S',
                'H',
            )
            | ('S', 'Z') | ('T', 'G') | ('V', 'D') => Some(EvalPolicy::DoubleRound100),
            ('A', 'R') | ('B', 'E') | ('B', 'S') | ('J', 'U') | ('L', 'U') | ('O', 'W') | (
                'T',
                'I',
            )
            | ('Z', 'G') | ('Z', 'H') | ('C', 'H') => Some(EvalPolicy::NoSplitRound100),
            ('V', 'S') => Some(EvalPolicy::Valais),
            _ => None,
        }
    } else {
        None
    };
    match found {
        Some(p) => Ok(p),
        None => Err(UnknownCanton { canton: canton.to_owned() }),
    }
}

/// A scale for these groups applies to single taxpayers.
pub open spec fn spec_is_single(group: Seq<Group>) -> bool {
    (group.contains(Group::Alle) || group.contains(Group::LedigAlleine)) && !group.contains(
        Group::Verheiratet,
    )
}

/// A scale for these groups applies to married taxpayers.
pub open spec fn spec_is_married(group: Seq<Group>) -> bool {
    group.contains(Group::Alle) || group.contains(Group::Verheiratet)
}

fn contains_group(group: &[Group], g: Group) -> (r: bool)
    ensures
        r == group@.contains(g),
{
    let mut i: usize = 0;
    while i < group.len()
        invariant
            i <= group@.len(),
            forall|k: int| 0 <= k < i ==> group@[k] != g,
        decreases group@.len() - i,
    {
        if group[i] == g {
            assert(group@[i as int] == g);
            return true;
        }
        i += 1;
    }
    false
}

pub fn is_single(group: &[Group]) -> (r: bool)
    ensures
        r == spec_is_single(group@),
{
    (contains_group(group, Group::Alle) || contains_group(group, Group::LedigAlleine))
        && !contains_group(group, Group::Verheiratet)
}

pub fn is_married(group: &[Group]) -> (r: bool)
    ensures
        r == spec_is_married(group@),
{
    contains_group(group, Group::Alle) || contains_group(group, Group::Verheiratet)
}

} // verus!
