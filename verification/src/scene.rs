//! What a phase asks the presentation layer to draw: plain values only.

use vstd::prelude::*;

verus! {

/// A position on the playfield, in whole pixels. The y axis points down.
#[derive(Debug, Clone, Copy, PartialEq, Eq, Structural)]
pub struct Point {
    pub x: i32,
    pub y: i32,
}

/// A colour with its opacity; an alpha of 255 is opaque.
#[derive(Debug, Clone, Copy, PartialEq, Eq, Structural)]
pub struct Color {
    pub r: u8,
    pub g: u8,
    pub b: u8,
    pub a: u8,
}

impl Color {
    /// An opaque colour.
    pub fn rgb(r: u8, g: u8, b: u8) -> (color: Color)
        ensures
            color == (Color { r, g, b, a: 255 }),
    {
        Color { r, g, b, a: 255 }
    }
}

/// The start screen: the background and the title, under an optional
/// full-frame overlay that is blended over them.
#[derive(Debug, Clone, Copy, PartialEq, Eq, Structural)]
pub struct StartScene {
    pub overlay: Option<Color>,
}

/// The battle: the background, and the player as a filled rectangle of the
/// given size centred at `marker_center`.
#[derive(Debug, Clone, Copy, PartialEq, Eq, Structural)]
pub struct BattleScene {
    pub marker_center: Point,
    pub marker_width: u32,
    pub marker_height: u32,
    pub marker_color: Color,
}

/// What to draw for the active phase.
#[derive(Debug, Clone, Copy, PartialEq, Eq, Structural)]
pub enum Scene {
    StartScreen(StartScene),
    Battle(BattleScene),
}

} // verus!
