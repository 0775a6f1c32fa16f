//! Choosing the queue families that rendering and presentation use.

use crate::vulkan::ash_bindings::{has_graphics_bit, queue_flags_contain_graphics};
use crate::vulkan::search::{
    first_true, lemma_first_true, lemma_first_true_full, lemma_first_true_prefix,
    lemma_first_true_step,
};
use std::collections::HashSet;
use vstd::prelude::*;

verus! {

broadcast use vstd::std_specs::hash::group_hash_axioms;

/// What the driver reports of one queue family of a physical device.
pub struct QueueFamilyReport {
    /// The family's raw `VkQueueFlags`.
    pub queue_flags: u32,
    /// The answer to the surface-support query for this family; an error holds
    /// the raw `VkResult` code.
    pub present_support: Result<bool, i32>,
}

/// The queue families chosen for graphics work and for presentation.
pub struct QueueFamilyIndices {
    pub graphics_family: Option<u32>,
    pub present_family: Option<u32>,
}

/// Which families can do graphics work.
pub open spec fn graphics_marks(families: Seq<QueueFamilyReport>) -> Seq<bool> {
    Seq::new(families.len(), |i: int| has_graphics_bit(families[i].queue_flags))
}

/// Which families the surface query answered with a successful `true`.
pub open spec fn present_marks(families: Seq<QueueFamilyReport>) -> Seq<bool> {
    Seq::new(families.len(), |i: int| families[i].present_support == Ok::<bool, i32>(true))
}

/// A position in the family list, as the family index that Vulkan uses.
pub open spec fn family_index(position: Option<int>) -> Option<u32> {
    match position {
        Some(i) => Some(i as u32),
        None => None,
    }
}

/// The values an optional family index holds.
pub open spec fn family_set(family: Option<u32>) -> Set<u32> {
    match family {
        Some(f) => set![f],
        None => Set::empty(),
    }
}

/// The graphics family that is found is the earliest family with the graphics bit,
/// and none is found only when no family has it; likewise the presentation family is
/// the earliest family whose surface query answered `true`.
pub proof fn law_found_families_are_earliest(families: Seq<QueueFamilyReport>)
    requires
        families.len() <= u32::MAX,
    ensures
        match first_true(graphics_marks(families)) {
            Some(g) => 0 <= g < families.len()
                && has_graphics_bit(families[g].queue_flags) && forall|j: int|
                0 <= j < g ==> !has_graphics_bit(#[trigger] families[j].queue_flags),
            None => forall|j: int|
                0 <= j < families.len() ==> !has_graphics_bit(#[trigger] families[j].queue_flags),
        },
        match first_true(present_marks(families)) {
            Some(p) => 0 <= p < families.len() && families[p].present_support == Ok::<bool, i32>(
                true,
            ) && forall|j: int|
                0 <= j < p ==> #[trigger] families[j].present_support != Ok::<bool, i32>(true),
            None => forall|j: int|
                0 <= j < families.len() ==> #[trigger] families[j].present_support != Ok::<
                    bool,
                    i32,
                >(true),
        },
{
    let gm = graphics_marks(families);
    let pm = present_marks(families);
    lemma_first_true(gm);
    lemma_first_true(pm);
    assert forall|j: int| 0 <= j < families.len() implies gm[j] == has_graphics_bit(
        #[trigger] families[j].queue_flags,
    ) by {}
    assert forall|j: int| 0 <= j < families.len() implies pm[j] == (
    #[trigger] families[j].present_support == Ok::<bool, i32>(true)) by {}
}

/// The indices that come out are positions in the family list: the graphics family is
/// the earliest family with the graphics bit, the presentation family the earliest
/// family whose surface query answered `true`, and each is missing only when no family
/// qualifies.
pub proof fn law_found_family_indices_are_positions(families: Seq<QueueFamilyReport>)
    requires
        families.len() <= u32::MAX,
    ensures
        match family_index(first_true(graphics_marks(families))) {
            Some(g) => g < families.len() && has_graphics_bit(families[g as int].queue_flags)
                && forall|j: int|
                0 <= j < g ==> !has_graphics_bit(#[trigger] families[j].queue_flags),
            None => forall|j: int|
                0 <= j < families.len() ==> !has_graphics_bit(#[trigger] families[j].queue_flags),
        },
        match family_index(first_true(present_marks(families))) {
            Some(p) => p < families.len() && families[p as int].present_support == Ok::<bool, i32>(
                true,
            ) && forall|j: int|
                0 <= j < p ==> #[trigger] families[j].present_support != Ok::<bool, i32>(true),
            None => forall|j: int|
                0 <= j < families.len() ==> #[trigger] families[j].present_support != Ok::<
                    bool,
                    i32,
                >(true),
        },
{
    law_found_families_are_earliest(families);
}

/// The distinct families are exactly the chosen ones: a family is among them when, and
/// only when, it is the graphics family or the presentation family.
pub proof fn law_unique_families_are_the_chosen_ones(indices: QueueFamilyIndices)
    ensures
        forall|f: u32|
            #[trigger] indices.unique_families().contains(f) <==> (indices.graphics_family == Some(
                f,
            ) || indices.present_family == Some(f)),
{
}

/// The search is complete exactly when some family can do graphics work and some
/// family can present.
pub proof fn law_complete_iff_both_exist(families: Seq<QueueFamilyReport>)
    requires
        families.len() <= u32::MAX,
    ensures
        (QueueFamilyIndices {
            graphics_family: family_index(first_true(graphics_marks(families))),
            present_family: family_index(first_true(present_marks(families))),
        }).spec_is_complete() <==> (exists|g: int|
            0 <= g < families.len() && has_graphics_bit(#[trigger] families[g].queue_flags))
            && (exists|p: int|
            0 <= p < families.len() && #[trigger] families[p].present_support == Ok::<
                bool,
                i32,
            >(true)),
{
    law_found_families_are_earliest(families);
}

/// At most two distinct families are chosen, and one when graphics and presentation
/// share a family.
pub proof fn law_unique_families_count(indices: QueueFamilyIndices)
    ensures
        indices.unique_families().finite(),
        indices.unique_families().len() <= 2,
        indices.graphics_family is Some && indices.graphics_family == indices.present_family
            ==> indices.unique_families().len() == 1,
        indices.graphics_family is Some && indices.present_family is Some
            && indices.graphics_family != indices.present_family
            ==> indices.unique_families().len() == 2,
{
    let u = indices.unique_families();
    match (indices.graphics_family, indices.present_family) {
        (Some(g), Some(p)) => {
            if g == p {
                assert(u =~= set![g]);
            } else {
                assert(u =~= set![g].insert(p));
            }
        },
        (Some(g), None) => {
            assert(u =~= set![g]);
        },
        (None, Some(p)) => {
            assert(u =~= set![p]);
        },
        (None, None) => {
            assert(u =~= Set::<u32>::empty());
        },
    }
}

impl QueueFamilyIndices {
    /// Both a graphics family and a presentation family were found.
    pub open spec fn spec_is_complete(self) -> bool {
        self.graphics_family is Some && self.present_family is Some
    }

    /// The distinct families that were found.
    pub open spec fn unique_families(self) -> Set<u32> {
        family_set(self.graphics_family).union(family_set(self.present_family))
    }

    pub fn is_complete(&self) -> (r: bool)
        ensures
            r == self.spec_is_complete(),
    {
        self.graphics_family.is_some() && self.present_family.is_some()
    }

    /// Picks the first family that can do graphics work and the first family that can
    /// present to the surface; a failed surface query counts as no support.
    pub fn find_queue_families(families: &Vec<QueueFamilyReport>) -> (r: QueueFamilyIndices)
        requires
            families.len() <= u32::MAX,
        ensures
            r.graphics_family == family_index(first_true(graphics_marks(families@))),
            r.present_family == family_index(first_true(present_marks(families@))),
            match r.graphics_family {
                Some(g) => g < families.len() && has_graphics_bit(families@[g as int].queue_flags)
                    && forall|j: int|
                    0 <= j < g ==> !has_graphics_bit(#[trigger] families@[j].queue_flags),
                None => forall|j: int|
                    0 <= j < families.len() ==> !has_graphics_bit(
                        #[trigger] families@[j].queue_flags,
                    ),
            },
            match r.present_family {
                Some(p) => p < families.len() && families@[p as int].present_support == Ok::<
                    bool,
                    i32,
                >(true) && forall|j: int|
                    0 <= j < p ==> #[trigger] families@[j].present_support != Ok::<bool, i32>(
                        true,
                    ),
                None => forall|j: int|
                    0 <= j < families.len() ==> #[trigger] families@[j].present_support != Ok::<
                        bool,
                        i32,
                    >(true),
            },
    {
        let ghost gm = graphics_marks(families@);
        let ghost pm = present_marks(families@);
        let mut graphics_index: Option<u32> = None;
        let mut present_index: Option<u32> = None;
        let n = families.len();
        let mut index: usize = 0;
        proof {
            lemma_first_true_full(gm);
            lemma_first_true_full(pm);
        }
        while index < n
            invariant
                n == families.len(),
                n <= u32::MAX,
                index <= n,
                gm == graphics_marks(families@),
                pm == present_marks(families@),
                first_true(gm.take(n as int)) == first_true(gm),
                first_true(pm.take(n as int)) == first_true(pm),
                graphics_index == family_index(first_true(gm.take(index as int))),
                present_index == family_index(first_true(pm.take(index as int))),
            ensures
                graphics_index == family_index(first_true(gm)),
                present_index == family_index(first_true(pm)),
            decreases n - index,
        {
            let family = &families[index];
            proof {
                lemma_first_true_step(gm, index as int);
                lemma_first_true_step(pm, index as int);
            }
            if graphics_index.is_none() && queue_flags_contain_graphics(family.queue_flags) {
                graphics_index = Some(index as u32);
            }
            if present_index.is_none() {
                let present_support = family.present_support;
                if present_support.is_ok() && present_support.unwrap() {
                    present_index = Some(index as u32);
                }
            }
            index = index + 1;
            if graphics_index.is_some() && present_index.is_some() {
                proof {
                    lemma_first_true_prefix(gm, index as int);
                    lemma_first_true_prefix(pm, index as int);
                }
                break;
            }
        }
        proof {
            law_found_family_indices_are_positions(families@);
        }
        QueueFamilyIndices { graphics_family: graphics_index, present_family: present_index }
    }

    /// The chosen families without repetition.
    pub fn get_unique_queue_families(&self) -> (r: HashSet<u32>)
        ensures
            r@ == self.unique_families(),
            forall|f: u32|
                #[trigger] r@.contains(f) <==> (self.graphics_family == Some(f)
                    || self.present_family == Some(f)),
    {
        let mut unique_indices: HashSet<u32> = HashSet::new();
        if let Some(graphics_index) = self.graphics_family {
            unique_indices.insert(graphics_index);
        }
        if let Some(present_index) = self.present_family {
            unique_indices.insert(present_index);
        }
        assert(unique_indices@ =~= self.unique_families());
        unique_indices
    }
}

} // verus!
