//! Colors of the launcher's window, as egui colors.
use vstd::prelude::*;

verus! {

#[verifier::external_type_specification]
#[verifier::external_body]
pub struct ExColor32(egui::Color32);

/// What `egui::Color32::from_rgb` returns for the given channels.
pub uninterp spec fn color_from_rgb(r: u8, g: u8, b: u8) -> egui::Color32;

/// Calls `egui::Color32::from_rgb`, an opaque color with the given red,
/// green and blue channels; the contract claims only that the result is a
/// function of the three channels.
#[verifier::external_body]
pub(crate) fn rgb(r: u8, g: u8, b: u8) -> (c: egui::Color32)
    ensures
        c == color_from_rgb(r, g, b),
{
    egui::Color32::from_rgb(r, g, b)
}

} // verus!
