use vstd::prelude::*;

verus! {

/// Why a chain cannot be built.
#[derive(Debug, Clone, Copy, PartialEq, Eq, Structural)]
pub enum ChainError {
    /// The convergence tolerance is not strictly positive.
    InvalidTolerance,
    /// Fewer than two joints were given: there is no link.
    TooFewJoints,
    /// The link with this index has a length that is not strictly positive
    /// (its two joints coincide).
    DegenerateLink(usize),
}

/// The shape of a valid chain: how many joints it has. A chain always has a
/// root and an end effector, so at least two joints, and one link fewer than
/// joints. Joint 0 is the root, joint `joint_count - 1` the end effector, and
/// link `i` joins joints `i` and `i + 1`.
#[derive(Debug)]
pub struct ChainShape {
    joint_count: usize,
}

impl View for ChainShape {
    type V = nat;

    /// The number of joints.
    closed spec fn view(&self) -> nat {
        self.joint_count as nat
    }
}

impl ChainShape {
    #[verifier::type_invariant]
    spec fn inv(self) -> bool {
        self.joint_count >= 2
    }

    /// The number of joints.
    pub fn joint_count(&self) -> (n: usize)
        ensures
            n == self@,
            n >= 2,
    {
        proof {
            use_type_invariant(self);
        }
        self.joint_count
    }

    /// The number of links, one fewer than joints.
    pub fn link_count(&self) -> (n: usize)
        ensures
            n == self@ - 1,
            n >= 1,
    {
        proof {
            use_type_invariant(self);
        }
        self.joint_count - 1
    }

    /// The index of the end effector, the last joint.
    pub fn effector(&self) -> (n: usize)
        ensures
            n == self@ - 1,
            n >= 1,
    {
        proof {
            use_type_invariant(self);
        }
        self.joint_count - 1
    }
}

/// Whether every link before index `n` is strictly positive.
pub open spec fn links_ok_before(link_positive: Seq<bool>, n: int) -> bool {
    forall|i: int| 0 <= i < n ==> #[trigger] link_positive[i]
}

/// The index of the first link that is not strictly positive, where one is.
pub open spec fn first_degenerate(link_positive: Seq<bool>) -> int {
    choose|i: int|
        0 <= i < link_positive.len() && !link_positive[i] && links_ok_before(link_positive, i)
}

/// What building a chain yields: `Ok` with the number of joints, one more
/// than the number of links, given whether its tolerance is strictly
/// positive and, for each link in order, whether its length is strictly
/// positive.
pub open spec fn chain_verdict(tolerance_positive: bool, link_positive: Seq<bool>) -> Result<
    nat,
    ChainError,
> {
    if !tolerance_positive {
        Err(ChainError::InvalidTolerance)
    } else if link_positive.len() == 0 {
        Err(ChainError::TooFewJoints)
    } else if links_ok_before(link_positive, link_positive.len() as int) {
        Ok(link_positive.len() + 1)
    } else {
        Err(ChainError::DegenerateLink(first_degenerate(link_positive) as usize))
    }
}

/// Decides whether a chain may be built, from whether its tolerance is
/// strictly positive and, for each link in order, whether the distance
/// between its two joints is strictly positive. The tolerance is checked
/// first, then the number of links, then each link in order; the first
/// degenerate link is the one reported.
pub fn validate_chain(tolerance_positive: bool, link_positive: &Vec<bool>) -> (r: Result<
    ChainShape,
    ChainError,
>)
    requires
        link_positive@.len() < usize::MAX,
    ensures
        r matches Ok(shape) ==> chain_verdict(tolerance_positive, link_positive@) == Ok::<
            nat,
            ChainError,
        >(shape@),
        r matches Err(e) ==> chain_verdict(tolerance_positive, link_positive@) == Err::<
            nat,
            ChainError,
        >(e),
        r is Ok <==> tolerance_positive && link_positive@.len() > 0 && links_ok_before(
            link_positive@,
            link_positive@.len() as int,
        ),
        r matches Err(ChainError::DegenerateLink(i)) ==> i < link_positive@.len()
            && !link_positive@[i as int] && links_ok_before(link_positive@, i as int),
{
    if !tolerance_positive {
        return Err(ChainError::InvalidTolerance);
    }
    if link_positive.len() == 0 {
        return Err(ChainError::TooFewJoints);
    }
    let mut i: usize = 0;
    while i < link_positive.len()
        invariant
            tolerance_positive,
            0 < link_positive@.len() < usize::MAX,
            i <= link_positive@.len(),
            links_ok_before(link_positive@, i as int),
        decreases link_positive@.len() - i,
    {
        if !link_positive[i] {
            proof {
                let s = link_positive@;
                assert(0 <= i < s.len() && !s[i as int] && links_ok_before(s, i as int));
                assert(!links_ok_before(s, s.len() as int));
                let j = first_degenerate(s);
                // the first degenerate link is unique
                if j < i {
                    assert(s[j]);
                } else if j > i {
                    assert(s[i as int]);
                }
                assert(j == i);
            }
            return Err(ChainError::DegenerateLink(i));
        }
        i = i + 1;
    }
    Ok(ChainShape { joint_count: link_positive.len() + 1 })
}

/// A chain whose tolerance is not strictly positive is never built, and
/// neither is one in which any two consecutive joints coincide (a link of
/// length zero).
pub proof fn invalid_chains_are_refused(tolerance_positive: bool, link_positive: Seq<bool>)
    ensures
        !tolerance_positive ==> chain_verdict(tolerance_positive, link_positive) == Err::<
            nat,
            ChainError,
        >(ChainError::InvalidTolerance),
        (exists|i: int| 0 <= i < link_positive.len() && !#[trigger] link_positive[i])
            ==> chain_verdict(tolerance_positive, link_positive) is Err,
{
    if exists|i: int| 0 <= i < link_positive.len() && !#[trigger] link_positive[i] {
        let i = choose|i: int| 0 <= i < link_positive.len() && !#[trigger] link_positive[i];
        assert(!links_ok_before(link_positive, link_positive.len() as int));
    }
}

} // verus!
