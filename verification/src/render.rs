//! Presentation decisions for windows: stacking, corner rounding, the first
//! configured size, and wrappers that adjust how render elements occlude.

use vstd::prelude::*;

verus! {

/// The stacking band of a window: floating windows sit above tiled ones.
pub fn floating_z_index(floating: bool) -> (z: u8)
    ensures
        z == if floating {
            1u8
        } else {
            0u8
        },
{
    if floating {
        1
    } else {
        0
    }
}

/// Floating windows always stack above tiled windows.
pub proof fn lemma_floating_stacks_above_tiled()
    ensures
        (if true {
            1u8
        } else {
            0u8
        }) > (if false {
            1u8
        } else {
            0u8
        }),
{
}

/// Corner rounding clips a window's own surfaces, never its popups.
pub fn should_round_surface_element(is_popup: bool, rounding_active: bool) -> (round: bool)
    ensures
        round == (rounding_active && !is_popup),
{
    rounding_active && !is_popup
}

/// Records the first size a client is configured with. Only the first call
/// records and returns the size; later calls leave the record and return `None`.
pub fn record_initial_client_size(
    last_configured_size: &mut Option<(i32, i32)>,
    desired_size: (i32, i32),
) -> (recorded: Option<(i32, i32)>)
    ensures
        (*old(last_configured_size)) is Some ==> recorded is None && *final(last_configured_size)
            == *old(last_configured_size),
        (*old(last_configured_size)) is None ==> recorded == Some(desired_size)
            && *final(last_configured_size) == Some(desired_size),
{
    if last_configured_size.is_some() {
        return None;
    }
    *last_configured_size = Some(desired_size);
    Some(desired_size)
}

/// A render element that draws like the element it wraps but declares no
/// opaque region, so nothing behind it is culled.
#[derive(Clone, Debug)]
pub struct NonOccludingElement<E>(E);

impl<E> NonOccludingElement<E> {
    /// The wrapped element.
    pub closed spec fn element(&self) -> E {
        self.0
    }

    /// Wraps `element`.
    pub fn new(element: E) -> (wrapped: Self)
        ensures
            wrapped.element() == element,
    {
        Self(element)
    }

    /// The wrapped element.
    pub fn inner(&self) -> (element: &E)
        ensures
            *element == self.element(),
    {
        &self.0
    }

    /// The regions, in element coordinates, that the wrapper reports as opaque:
    /// none, whatever the wrapped element reports.
    pub fn opaque_regions(&self) -> (regions: Vec<(i32, i32, i32, i32)>)
        ensures
            regions@.len() == 0,
    {
        Vec::new()
    }
}

/// The GL program and attribute/uniform locations that draw the cursor wake.
#[derive(Clone, Copy, Debug, PartialEq, Eq)]
pub struct RibbonProgram {
    pub id: u32,
    pub position: i32,
    pub normal: i32,
    pub side: i32,
    pub opacity: i32,
    pub screen_size: i32,
    pub screen_tex: i32,
    pub distortion_strength: i32,
}

/// The compiled programs of the cursor wake effect.
#[derive(Clone, Copy, Debug, PartialEq, Eq)]
pub struct CursorWakePrograms {
    pub ribbon: RibbonProgram,
}

} // verus!
