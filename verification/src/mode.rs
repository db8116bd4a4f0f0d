//! Display modes and the rule that picks one for a newly connected connector.

use vstd::prelude::*;

verus! {

/// Bit of a mode's type word that marks the mode the display prefers.
pub const PREFERRED_BIT: u32 = 8;

/// A timing descriptor: pixel size, refresh rate in millihertz, and the
/// kernel's type word for the mode.
#[derive(Clone, Copy, Debug, PartialEq, Eq, Structural)]
pub struct Mode {
    pub width: u16,
    pub height: u16,
    pub refresh: i32,
    pub type_bits: u32,
}

/// Whether a type word carries the preferred mark.
pub open spec fn bits_preferred(type_bits: u32) -> bool {
    type_bits & PREFERRED_BIT != 0
}

/// Whether any of the first `n` modes is preferred.
pub open spec fn any_preferred_before(modes: Seq<Mode>, n: int) -> bool {
    exists|j: int| 0 <= j < n && j < modes.len() && bits_preferred(#[trigger] modes[j].type_bits)
}

/// The index that mode selection yields: the first preferred mode, or the
/// first mode when none is preferred.
pub open spec fn selected_index(modes: Seq<Mode>) -> int {
    if any_preferred_before(modes, modes.len() as int) {
        choose|i: int|
            0 <= i < modes.len() && bits_preferred(#[trigger] modes[i].type_bits)
                && !any_preferred_before(modes, i)
    } else {
        0
    }
}

/// Reads a mode's type word with the drm crate's
/// `ModeTypeFlags::from_bits_truncate` and asks `contains` for
/// `ModeTypeFlags::PREFERRED`. That flag is the single bit of value 8 and is
/// among the bits that truncation keeps, so the answer is whether that bit is
/// set in the word.
#[verifier::external_body]
fn type_is_preferred(type_bits: u32) -> (preferred: bool)
    ensures
        preferred == bits_preferred(type_bits),
{
    drm::control::ModeTypeFlags::from_bits_truncate(type_bits).contains(
        drm::control::ModeTypeFlags::PREFERRED,
    )
}

impl Mode {
    /// Whether the display marks this mode as its preferred one.
    pub fn is_preferred(&self) -> (preferred: bool)
        ensures
            preferred == bits_preferred(self.type_bits),
    {
        type_is_preferred(self.type_bits)
    }
}

/// Position of the mode to use for a connector: the first mode flagged
/// preferred, else the first mode. `None` exactly when the list is empty.
pub fn select_mode(modes: &Vec<Mode>) -> (chosen: Option<usize>)
    ensures
        chosen.is_none() <==> modes@.len() == 0,
        chosen.is_some() ==> chosen.unwrap() < modes@.len(),
        chosen.is_some() ==> chosen.unwrap() as int == selected_index(modes@),
        chosen.is_some() && any_preferred_before(modes@, modes@.len() as int) ==> {
            &&& bits_preferred(modes@[chosen.unwrap() as int].type_bits)
            &&& !any_preferred_before(modes@, chosen.unwrap() as int)
        },
        chosen.is_some() && !any_preferred_before(modes@, modes@.len() as int) ==> chosen.unwrap()
            == 0,
{
    if modes.len() == 0 {
        return None;
    }
    let mut i: usize = 0;
    while i < modes.len()
        invariant
            0 <= i <= modes@.len(),
            !any_preferred_before(modes@, i as int),
        decreases modes@.len() - i,
    {
        if modes[i].is_preferred() {
            proof {
                lemma_first_preferred_is_selected(modes@, i as int);
            }
            return Some(i);
        }
        assert(!any_preferred_before(modes@, i + 1)) by {
            if any_preferred_before(modes@, i + 1) {
                let j = choose|j: int|
                    0 <= j < i + 1 && j < modes@.len() && bits_preferred(
                        #[trigger] modes@[j].type_bits,
                    );
                assert(j < i || j == i);
                if j < i {
                    assert(any_preferred_before(modes@, i as int));
                }
            }
        }
        i += 1;
    }
    Some(0)
}

/// The first preferred position is the one that `selected_index` names.
pub proof fn lemma_first_preferred_is_selected(modes: Seq<Mode>, i: int)
    requires
        0 <= i < modes.len(),
        bits_preferred(modes[i].type_bits),
        !any_preferred_before(modes, i),
    ensures
        selected_index(modes) == i,
        any_preferred_before(modes, modes.len() as int),
{
    assert(any_preferred_before(modes, modes.len() as int));
    let k = selected_index(modes);
    assert(0 <= k < modes.len() && bits_preferred(modes[k].type_bits) && !any_preferred_before(
        modes,
        k,
    ));
    if k < i {
        assert(any_preferred_before(modes, i));
    }
    if i < k {
        assert(any_preferred_before(modes, k));
    }
}

/// Where some mode before `n` is preferred, one of them is the first.
pub proof fn lemma_first_preferred_exists(modes: Seq<Mode>, n: int) -> (k: int)
    requires
        any_preferred_before(modes, n),
    ensures
        0 <= k < n,
        k < modes.len(),
        bits_preferred(modes[k].type_bits),
        !any_preferred_before(modes, k),
    decreases n,
{
    let j = choose|j: int|
        0 <= j < n && j < modes.len() && bits_preferred(#[trigger] modes[j].type_bits);
    if any_preferred_before(modes, n - 1) {
        lemma_first_preferred_exists(modes, n - 1)
    } else {
        if j < n - 1 {
            assert(any_preferred_before(modes, n - 1));
        }
        n - 1
    }
}

/// Mode selection looks at nothing but where the preferred marks stand: two
/// lists of one length whose marks agree position by position select the same
/// position. In particular any reordering of a list that keeps its marks in
/// place leaves the selection where it was.
pub proof fn lemma_selection_stable(a: Seq<Mode>, b: Seq<Mode>)
    requires
        a.len() == b.len(),
        forall|i: int|
            0 <= i < a.len() ==> bits_preferred(#[trigger] a[i].type_bits) == bits_preferred(
                b[i].type_bits,
            ),
    ensures
        selected_index(a) == selected_index(b),
{
    if any_preferred_before(a, a.len() as int) {
        let k = lemma_first_preferred_exists(a, a.len() as int);
        lemma_first_preferred_is_selected(a, k);
        assert(bits_preferred(b[k].type_bits));
        assert(!any_preferred_before(b, k)) by {
            if any_preferred_before(b, k) {
                let j = choose|j: int|
                    0 <= j < k && j < b.len() && bits_preferred(#[trigger] b[j].type_bits);
                assert(bits_preferred(a[j].type_bits));
                assert(any_preferred_before(a, k));
            }
        }
        lemma_first_preferred_is_selected(b, k);
    } else {
        assert(!any_preferred_before(b, b.len() as int)) by {
            if any_preferred_before(b, b.len() as int) {
                let j = choose|j: int|
                    0 <= j < b.len() && j < b.len() && bits_preferred(#[trigger] b[j].type_bits);
                assert(bits_preferred(a[j].type_bits));
                assert(any_preferred_before(a, a.len() as int));
            }
        }
    }
}

} // verus!
