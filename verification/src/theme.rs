//! The launcher's visual theme: its palette.
use vstd::prelude::*;
use crate::color::{color_from_rgb, rgb};

verus! {

/// The DayZ look of the launcher.
pub struct DayZTheme;

impl DayZTheme {
    /// Background of the window, a very dark gray.
    pub fn bg_primary() -> (c: egui::Color32)
        ensures
            c == color_from_rgb(18, 18, 16),
    {
        rgb(18, 18, 16)
    }

    /// Background of panels.
    pub fn bg_panel() -> (c: egui::Color32)
        ensures
            c == color_from_rgb(26, 26, 22),
    {
        rgb(26, 26, 22)
    }

    /// Background of items such as table rows.
    pub fn bg_item() -> (c: egui::Color32)
        ensures
            c == color_from_rgb(32, 32, 28),
    {
        rgb(32, 32, 28)
    }

    /// Background of the selected item.
    pub fn bg_selected() -> (c: egui::Color32)
        ensures
            c == color_from_rgb(80, 25, 5),
    {
        rgb(80, 25, 5)
    }

    /// Background of a button under the pointer.
    pub fn bg_hover() -> (c: egui::Color32)
        ensures
            c == color_from_rgb(50, 20, 5),
    {
        rgb(50, 20, 5)
    }

    /// The accent color, a rust red.
    pub fn accent() -> (c: egui::Color32)
        ensures
            c == color_from_rgb(192, 58, 0),
    {
        rgb(192, 58, 0)
    }

    /// The bright accent.
    pub fn accent_bright() -> (c: egui::Color32)
        ensures
            c == color_from_rgb(255, 69, 0),
    {
        rgb(255, 69, 0)
    }

    /// The dimmed accent.
    pub fn accent_dim() -> (c: egui::Color32)
        ensures
            c == color_from_rgb(120, 36, 0),
    {
        rgb(120, 36, 0)
    }

    /// Main text.
    pub fn text_primary() -> (c: egui::Color32)
        ensures
            c == color_from_rgb(200, 191, 168),
    {
        rgb(200, 191, 168)
    }

    /// Secondary text.
    pub fn text_dim() -> (c: egui::Color32)
        ensures
            c == color_from_rgb(120, 117, 104),
    {
        rgb(120, 117, 104)
    }

    /// Bright text.
    pub fn text_white() -> (c: egui::Color32)
        ensures
            c == color_from_rgb(240, 235, 225),
    {
        rgb(240, 235, 225)
    }

    /// Status: good.
    pub fn green() -> (c: egui::Color32)
        ensures
            c == color_from_rgb(92, 138, 94),
    {
        rgb(92, 138, 94)
    }

    /// Status: warning.
    pub fn yellow() -> (c: egui::Color32)
        ensures
            c == color_from_rgb(200, 160, 0),
    {
        rgb(200, 160, 0)
    }

    /// Status: error.
    pub fn red() -> (c: egui::Color32)
        ensures
            c == color_from_rgb(192, 58, 0),
    {
        rgb(192, 58, 0)
    }

    /// Borders.
    pub fn border() -> (c: egui::Color32)
        ensures
            c == color_from_rgb(60, 40, 20),
    {
        rgb(60, 40, 20)
    }
}

} // verus!
