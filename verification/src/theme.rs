//! Time-of-day colour palettes of the graphical interface.

use vstd::prelude::*;

use crate::world::TimeOfDay;

verus! {

/// A colour as red, green and blue components.
#[derive(Debug, Clone, Copy, PartialEq, Eq, Structural)]
pub struct Rgb {
    /// Red component.
    pub r: u8,
    /// Green component.
    pub g: u8,
    /// Blue component.
    pub b: u8,
}

/// A colour from its components.
pub open spec fn rgb(r: u8, g: u8, b: u8) -> Rgb {
    Rgb { r, g, b }
}

/// The colour palette of the interface at a time of day.
#[derive(Debug, Clone, Copy, PartialEq, Eq, Structural)]
pub struct GuiPalette {
    /// Main background colour.
    pub bg: Rgb,
    /// Foreground (text) colour.
    pub fg: Rgb,
    /// Accent colour for the status bar and highlights.
    pub accent: Rgb,
    /// Slightly offset background for panels (chat, sidebar).
    pub panel_bg: Rgb,
    /// Background of the text input field.
    pub input_bg: Rgb,
    /// Border and separator colour.
    pub border: Rgb,
    /// Muted text colour for secondary information.
    pub muted: Rgb,
}

/// The palette of a time of day: light and warm by day, dark and blue by
/// night; panels and the input field are shaded off the background.
pub open spec fn palette_for(tod: TimeOfDay) -> GuiPalette {
    match tod {
        TimeOfDay::Dawn => GuiPalette { bg: rgb(255, 220, 180), fg: rgb(60, 40, 20), accent: rgb(200, 140, 60), panel_bg: rgb(250, 215, 175), input_bg: rgb(245, 210, 170), border: rgb(200, 170, 130), muted: rgb(120, 100, 70) },
        TimeOfDay::Morning => GuiPalette { bg: rgb(255, 245, 220), fg: rgb(50, 35, 15), accent: rgb(180, 130, 50), panel_bg: rgb(250, 240, 215), input_bg: rgb(245, 235, 210), border: rgb(210, 190, 150), muted: rgb(120, 100, 60) },
        TimeOfDay::Midday => GuiPalette { bg: rgb(255, 255, 240), fg: rgb(40, 30, 10), accent: rgb(160, 120, 40), panel_bg: rgb(250, 250, 235), input_bg: rgb(245, 245, 230), border: rgb(210, 200, 170), muted: rgb(110, 100, 60) },
        TimeOfDay::Afternoon => GuiPalette { bg: rgb(240, 220, 170), fg: rgb(50, 35, 15), accent: rgb(180, 130, 50), panel_bg: rgb(235, 215, 165), input_bg: rgb(230, 210, 160), border: rgb(200, 180, 130), muted: rgb(120, 100, 60) },
        TimeOfDay::Dusk => GuiPalette { bg: rgb(60, 70, 110), fg: rgb(220, 210, 190), accent: rgb(200, 160, 80), panel_bg: rgb(55, 65, 100), input_bg: rgb(50, 60, 95), border: rgb(90, 100, 140), muted: rgb(160, 150, 140) },
        TimeOfDay::Night => GuiPalette { bg: rgb(20, 25, 40), fg: rgb(180, 180, 190), accent: rgb(100, 110, 140), panel_bg: rgb(25, 30, 48), input_bg: rgb(30, 35, 55), border: rgb(60, 65, 90), muted: rgb(120, 120, 135) },
        TimeOfDay::Midnight => GuiPalette { bg: rgb(10, 12, 20), fg: rgb(150, 150, 165), accent: rgb(70, 75, 100), panel_bg: rgb(15, 18, 28), input_bg: rgb(20, 24, 36), border: rgb(45, 48, 65), muted: rgb(100, 100, 115) },
    }
}

/// The palette of a time of day.
pub fn gui_palette_for_time(tod: &TimeOfDay) -> (r: GuiPalette)
    ensures
        r == palette_for(*tod),
{
    match tod {
        TimeOfDay::Dawn => GuiPalette {
            bg: Rgb { r: 255, g: 220, b: 180 },
            fg: Rgb { r: 60, g: 40, b: 20 },
            accent: Rgb { r: 200, g: 140, b: 60 },
            panel_bg: Rgb { r: 250, g: 215, b: 175 },
            input_bg: Rgb { r: 245, g: 210, b: 170 },
            border: Rgb { r: 200, g: 170, b: 130 },
            muted: Rgb { r: 120, g: 100, b: 70 },
        },
        TimeOfDay::Morning => GuiPalette {
            bg: Rgb { r: 255, g: 245, b: 220 },
            fg: Rgb { r: 50, g: 35, b: 15 },
            accent: Rgb { r: 180, g: 130, b: 50 },
            panel_bg: Rgb { r: 250, g: 240, b: 215 },
            input_bg: Rgb { r: 245, g: 235, b: 210 },
            border: Rgb { r: 210, g: 190, b: 150 },
            muted: Rgb { r: 120, g: 100, b: 60 },
        },
        TimeOfDay::Midday => GuiPalette {
            bg: Rgb { r: 255, g: 255, b: 240 },
            fg: Rgb { r: 40, g: 30, b: 10 },
            accent: Rgb { r: 160, g: 120, b: 40 },
            panel_bg: Rgb { r: 250, g: 250, b: 235 },
            input_bg: Rgb { r: 245, g: 245, b: 230 },
            border: Rgb { r: 210, g: 200, b: 170 },
            muted: Rgb { r: 110, g: 100, b: 60 },
        },
        TimeOfDay::Afternoon => GuiPalette {
            bg: Rgb { r: 240, g: 220, b: 170 },
            fg: Rgb { r: 50, g: 35, b: 15 },
            accent: Rgb { r: 180, g: 130, b: 50 },
            panel_bg: Rgb { r: 235, g: 215, b: 165 },
            input_bg: Rgb { r: 230, g: 210, b: 160 },
            border: Rgb { r: 200, g: 180, b: 130 },
            muted: Rgb { r: 120, g: 100, b: 60 },
        },
        TimeOfDay::Dusk => GuiPalette {
            bg: Rgb { r: 60, g: 70, b: 110 },
            fg: Rgb { r: 220, g: 210, b: 190 },
            accent: Rgb { r: 200, g: 160, b: 80 },
            panel_bg: Rgb { r: 55, g: 65, b: 100 },
            input_bg: Rgb { r: 50, g: 60, b: 95 },
            border: Rgb { r: 90, g: 100, b: 140 },
            muted: Rgb { r: 160, g: 150, b: 140 },
        },
        TimeOfDay::Night => GuiPalette {
            bg: Rgb { r: 20, g: 25, b: 40 },
            fg: Rgb { r: 180, g: 180, b: 190 },
            accent: Rgb { r: 100, g: 110, b: 140 },
            panel_bg: Rgb { r: 25, g: 30, b: 48 },
            input_bg: Rgb { r: 30, g: 35, b: 55 },
            border: Rgb { r: 60, g: 65, b: 90 },
            muted: Rgb { r: 120, g: 120, b: 135 },
        },
        TimeOfDay::Midnight => GuiPalette {
            bg: Rgb { r: 10, g: 12, b: 20 },
            fg: Rgb { r: 150, g: 150, b: 165 },
            accent: Rgb { r: 70, g: 75, b: 100 },
            panel_bg: Rgb { r: 15, g: 18, b: 28 },
            input_bg: Rgb { r: 20, g: 24, b: 36 },
            border: Rgb { r: 45, g: 48, b: 65 },
            muted: Rgb { r: 100, g: 100, b: 115 },
        },
    }
}

/// Law: the daytime palettes (morning to afternoon) have a light
/// background, the night ones a dark one, midnight the darkest, and every
/// panel background differs from the main background.
pub proof fn law_palette_brightness(tod: TimeOfDay)
    ensures
        (tod == TimeOfDay::Morning || tod == TimeOfDay::Midday || tod == TimeOfDay::Afternoon)
            ==> palette_for(tod).bg.r > 200 && palette_for(tod).bg.g > 200,
        (tod == TimeOfDay::Night || tod == TimeOfDay::Midnight) ==> palette_for(tod).bg.r < 50
            && palette_for(tod).bg.g < 50 && palette_for(tod).bg.b < 80,
        palette_for(TimeOfDay::Midnight).bg.r <= palette_for(tod).bg.r,
        palette_for(TimeOfDay::Midnight).bg.g <= palette_for(tod).bg.g,
        palette_for(TimeOfDay::Midnight).bg.b <= palette_for(tod).bg.b,
        palette_for(tod).panel_bg != palette_for(tod).bg,
{
}

} // verus!
