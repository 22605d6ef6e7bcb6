//! The choices made while the device is set up: which queue family to open,
//! which optional features to ask for, and which format to present in.
//!
//! The device is queried by the caller. These functions take what it
//! answered as plain values and return the choice.

use vstd::prelude::*;

verus! {

/// What the queues of a family can do.
#[derive(Clone, Copy, Debug, PartialEq, Eq, Structural)]
pub enum QueueKind {
    /// Every operation.
    General,
    /// Graphics and transfer operations.
    Graphics,
    /// Compute and transfer operations.
    Compute,
    /// Transfer operations only.
    Transfer,
}

/// What the choice of a queue family reads of one family.
#[derive(Clone, Copy, Debug, PartialEq, Eq, Structural)]
pub struct QueueFamilyInfo {
    /// What its queues can do.
    pub kind: QueueKind,
    /// Whether it can present to the surface.
    pub presentable: bool,
}

/// Whether queues of this kind take graphics operations.
pub open spec fn kind_supports_graphics(kind: QueueKind) -> bool {
    kind is General || kind is Graphics
}

/// Whether a family will do: it presents to the surface and draws.
pub open spec fn family_suits(family: QueueFamilyInfo) -> bool {
    family.presentable && kind_supports_graphics(family.kind)
}

/// Calls `gfx_hal::queue::QueueType::supports_graphics` on the queue type of
/// the same name.
///
/// Trusted: by that method's source, the answer is `true` for `General` and
/// `Graphics` and `false` for `Compute` and `Transfer`.
#[verifier::external_body]
fn supports_graphics(kind: QueueKind) -> (b: bool)
    ensures
        b == kind_supports_graphics(kind),
{
    let queue_type = match kind {
        QueueKind::General => gfx_hal::queue::QueueType::General,
        QueueKind::Graphics => gfx_hal::queue::QueueType::Graphics,
        QueueKind::Compute => gfx_hal::queue::QueueType::Compute,
        QueueKind::Transfer => gfx_hal::queue::QueueType::Transfer,
    };
    queue_type.supports_graphics()
}

/// The position of the first family that presents to the surface and
/// draws, or `None` if no family does both.
pub fn choose_queue_family(families: &Vec<QueueFamilyInfo>) -> (choice: Option<usize>)
    ensures
        match choice {
            Some(i) => i < families.len() && family_suits(families[i as int]) && forall|j: int|
                0 <= j < i ==> !family_suits(#[trigger] families[j]),
            None => forall|j: int| 0 <= j < families.len() ==> !family_suits(#[trigger] families[j]),
        },
{
    let mut i: usize = 0;
    while i < families.len()
        invariant
            i <= families.len(),
            forall|j: int| 0 <= j < i ==> !family_suits(#[trigger] families[j]),
        decreases families.len() - i,
    {
        if families[i].presentable && supports_graphics(families[i].kind) {
            return Some(i);
        }
        i += 1;
    }
    None
}

/// The feature bit for binding resources sparsely.
pub const SPARSE_BINDING: u128 = 0x0000_1000_0000_0000u128;

/// The feature bit for partly resident two-dimensional images.
pub const SPARSE_RESIDENCY_IMAGE_2D: u128 = 0x0000_4000_0000_0000u128;

/// Reads the bits of `gfx_hal::Features::SPARSE_BINDING`.
///
/// Trusted: the value is the one that `gfx_hal` declares.
#[verifier::external_body]
fn sparse_binding_bits() -> (bits: u128)
    ensures
        bits == SPARSE_BINDING,
{
    gfx_hal::Features::SPARSE_BINDING.bits()
}

/// Reads the bits of `gfx_hal::Features::SPARSE_RESIDENCY_IMAGE_2D`.
///
/// Trusted: the value is the one that `gfx_hal` declares.
#[verifier::external_body]
fn sparse_residency_image_2d_bits() -> (bits: u128)
    ensures
        bits == SPARSE_RESIDENCY_IMAGE_2D,
{
    gfx_hal::Features::SPARSE_RESIDENCY_IMAGE_2D.bits()
}

/// The features to open the device with, given the bits of the features
/// that it offers: sparse binding together with sparse residency of
/// two-dimensional images if it offers both, and none otherwise.
pub open spec fn features_to_request(available: u128) -> u128 {
    let sparse = SPARSE_BINDING | SPARSE_RESIDENCY_IMAGE_2D;
    if available & sparse == sparse {
        sparse
    } else {
        0
    }
}

/// The features to open the device with, given the bits of the features
/// that it offers.
pub fn requested_features(available: u128) -> (request: u128)
    ensures
        request == features_to_request(available),
{
    let sparse: u128 = sparse_binding_bits() | sparse_residency_image_2d_bits();
    if available & sparse == sparse {
        sparse
    } else {
        0
    }
}

/// Only features that the device offers are asked for, and they are asked
/// for exactly when the device offers both sparse features.
pub proof fn lemma_requested_features_are_offered(available: u128)
    ensures
        features_to_request(available) & available == features_to_request(available),
        features_to_request(available) == 0x0000_5000_0000_0000u128 || features_to_request(
            available,
        ) == 0,
        features_to_request(available) != 0 <==> (available & SPARSE_BINDING != 0 && available
            & SPARSE_RESIDENCY_IMAGE_2D != 0),
{
    assert(0x0000_1000_0000_0000u128 | 0x0000_4000_0000_0000u128 == 0x0000_5000_0000_0000u128)
        by (bit_vector);
    assert(0u128 & available == 0u128) by (bit_vector);
    assert(available & 0x0000_5000_0000_0000u128 == 0x0000_5000_0000_0000u128
        ==> 0x0000_5000_0000_0000u128 & available == 0x0000_5000_0000_0000u128) by (bit_vector);
    assert((available & 0x0000_5000_0000_0000u128 == 0x0000_5000_0000_0000u128) <==> (available
        & 0x0000_1000_0000_0000u128 != 0 && available & 0x0000_4000_0000_0000u128 != 0))
        by (bit_vector);
}

/// The format to present in.
#[derive(Clone, Copy, Debug, PartialEq, Eq, Structural)]
pub enum FormatChoice {
    /// The surface has no preference: present in 8-bit sRGB with alpha.
    Rgba8Srgb,
    /// The format at this position of the surface's list.
    Listed(usize),
}

/// Whether position `i` holds the first sRGB-encoded format of the list.
pub open spec fn is_first_srgb(flags: Seq<bool>, i: int) -> bool {
    0 <= i < flags.len() && flags[i] && forall|j: int| 0 <= j < i ==> !#[trigger] flags[j]
}

/// Whether no format of the list is sRGB-encoded.
pub open spec fn none_srgb(flags: Seq<bool>) -> bool {
    forall|j: int| 0 <= j < flags.len() ==> !#[trigger] flags[j]
}

/// Whether `choice` is the format to present in, given for each format
/// that the surface supports whether it is sRGB-encoded: the first that is,
/// or else the first of the list. A surface without a list gets 8-bit sRGB
/// with alpha.
pub open spec fn is_display_format(srgb: Option<Seq<bool>>, choice: FormatChoice) -> bool {
    match srgb {
        None => choice == FormatChoice::Rgba8Srgb,
        Some(flags) => match choice {
            FormatChoice::Rgba8Srgb => false,
            FormatChoice::Listed(i) => is_first_srgb(flags, i as int) || (none_srgb(flags) && i
                == 0),
        },
    }
}

/// An optional list of flags as a mathematical value.
pub open spec fn flags_view(srgb: Option<&Vec<bool>>) -> Option<Seq<bool>> {
    match srgb {
        Some(flags) => Some(flags@),
        None => None,
    }
}

/// Chooses the format to present in. The list of a surface that has one is
/// not empty.
pub fn choose_display_format(srgb: Option<&Vec<bool>>) -> (choice: FormatChoice)
    requires
        srgb matches Some(flags) ==> flags.len() > 0,
    ensures
        is_display_format(flags_view(srgb), choice),
{
    match srgb {
        None => FormatChoice::Rgba8Srgb,
        Some(flags) => {
            let mut i: usize = 0;
            while i < flags.len()
                invariant
                    srgb == Some(flags),
                    i <= flags.len(),
                    forall|j: int| 0 <= j < i ==> !#[trigger] flags[j],
                decreases flags.len() - i,
            {
                if flags[i] {
                    return FormatChoice::Listed(i);
                }
                i += 1;
            }
            FormatChoice::Listed(0)
        },
    }
}

/// There is never more than one format to present in.
pub proof fn lemma_display_format_is_unique(
    srgb: Option<Seq<bool>>,
    a: FormatChoice,
    b: FormatChoice,
)
    requires
        is_display_format(srgb, a),
        is_display_format(srgb, b),
    ensures
        a == b,
{
    if let Some(flags) = srgb {
        let i = a->Listed_0 as int;
        let j = b->Listed_0 as int;
        if is_first_srgb(flags, i) && is_first_srgb(flags, j) {
            if i < j {
                assert(!flags[i]);
            } else if j < i {
                assert(!flags[j]);
            }
        } else if is_first_srgb(flags, i) {
            assert(!flags[i]);
        } else if is_first_srgb(flags, j) {
            assert(!flags[j]);
        }
    }
}

/// What the setup reads of one adapter, as the instance and the surface
/// report it before the device is opened.
#[derive(Clone, Debug, PartialEq, Eq)]
pub struct AdapterReport {
    /// The adapter's queue families, in the adapter's order.
    pub queue_families: Vec<QueueFamilyInfo>,
    /// The bits of the features that the adapter's device offers.
    pub features: u128,
    /// For each format that the surface supports on this adapter, in the
    /// surface's order, whether it is sRGB-encoded; `None` if the surface
    /// has no preference.
    pub srgb_formats: Option<Vec<bool>>,
}

/// The choices of the setup.
#[derive(Clone, Copy, Debug, PartialEq, Eq, Structural)]
pub struct SetupPlan {
    /// The position of the adapter to build the backend on.
    pub adapter: usize,
    /// The position, among that adapter's families, of the queue family to
    /// open.
    pub queue_family: usize,
    /// The bits of the features to open the device with.
    pub features: u128,
    /// The format to present in.
    pub format: FormatChoice,
}

/// Whether position `i` holds the first family that presents to the
/// surface and draws.
pub open spec fn is_first_suitable(families: Seq<QueueFamilyInfo>, i: int) -> bool {
    0 <= i < families.len() && family_suits(families[i]) && forall|j: int|
        0 <= j < i ==> !family_suits(#[trigger] families[j])
}

impl AdapterReport {
    /// Whether a backend can be built on this adapter: one of its families
    /// presents to the surface and draws, and the surface's list of
    /// formats, if it has one, is not empty.
    pub open spec fn usable(&self) -> bool {
        &&& exists|i: int|
            0 <= i < self.queue_families@.len() && family_suits(#[trigger] self.queue_families@[i])
        &&& self.srgb_formats matches Some(flags) ==> flags@.len() > 0
    }

    /// Whether `plan` holds the choices for this adapter: the first family
    /// that presents and draws, both sparse features if the device offers
    /// both and no feature otherwise, and the first sRGB-encoded format, or
    /// the first format if none is, or 8-bit sRGB with alpha for a surface
    /// without a list.
    pub open spec fn chooses(&self, plan: SetupPlan) -> bool {
        &&& is_first_suitable(self.queue_families@, plan.queue_family as int)
        &&& plan.features == features_to_request(self.features)
        &&& is_display_format(
            match self.srgb_formats {
                Some(flags) => Some(flags@),
                None => None,
            },
            plan.format,
        )
    }
}

/// Whether a backend can be set up on what the instance reports: there is
/// an adapter, and the first one is usable.
pub open spec fn can_set_up(adapters: Seq<AdapterReport>) -> bool {
    adapters.len() > 0 && adapters[0].usable()
}

/// Whether `plan` holds the choices of the setup: the first adapter, and on
/// it what [`AdapterReport::chooses`] says.
pub open spec fn is_plan_for(adapters: Seq<AdapterReport>, plan: SetupPlan) -> bool {
    plan.adapter == 0 && adapters.len() > 0 && adapters[0].chooses(plan)
}

/// Whether a backend can be set up on what the instance reports.
pub fn setup_possible(adapters: &Vec<AdapterReport>) -> (b: bool)
    ensures
        b == can_set_up(adapters@),
{
    if adapters.len() == 0 {
        return false;
    }
    let first = &adapters[0];
    let listed = match &first.srgb_formats {
        Some(flags) => flags.len() > 0,
        None => true,
    };
    match choose_queue_family(&first.queue_families) {
        Some(i) => listed,
        None => false,
    }
}

/// Makes the choices of the setup: the adapter, its queue family, the
/// features to open the device with and the format to present in.
pub fn plan_setup(adapters: &Vec<AdapterReport>) -> (plan: SetupPlan)
    requires
        can_set_up(adapters@),
    ensures
        is_plan_for(adapters@, plan),
{
    let first = &adapters[0];
    let queue_family: usize = match choose_queue_family(&first.queue_families) {
        Some(i) => i,
        None => vstd::pervasive::unreached(),
    };
    let format = match &first.srgb_formats {
        Some(flags) => choose_display_format(Some(flags)),
        None => choose_display_format(None),
    };
    SetupPlan { adapter: 0, queue_family, features: requested_features(first.features), format }
}

/// The setup has never more than one plan.
pub proof fn lemma_plan_is_unique(adapters: Seq<AdapterReport>, a: SetupPlan, b: SetupPlan)
    requires
        is_plan_for(adapters, a),
        is_plan_for(adapters, b),
    ensures
        a == b,
{
    let first = adapters[0];
    let families = first.queue_families@;
    let i = a.queue_family as int;
    let j = b.queue_family as int;
    if i < j {
        assert(!family_suits(families[i]));
    } else if j < i {
        assert(!family_suits(families[j]));
    }
    lemma_display_format_is_unique(
        match first.srgb_formats {
            Some(flags) => Some(flags@),
            None => None,
        },
        a.format,
        b.format,
    );
}

} // verus!
