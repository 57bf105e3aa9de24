//! A custom colour theme: the palette and the appearance each widget style
//! maps to. Colours are 8-bit RGBA channels; border widths and radii are
//! whole pixels.

use vstd::prelude::*;

verus! {

/// An RGBA colour with 8-bit channels; `a` is 255 for opaque.
#[derive(Debug, Clone, Copy, PartialEq, Eq, Structural)]
pub struct Color {
    pub r: u8,
    pub g: u8,
    pub b: u8,
    pub a: u8,
}

impl Color {
    /// An opaque colour from its red, green and blue channels.
    pub fn rgb(r: u8, g: u8, b: u8) -> (c: Color)
        ensures
            c == (Color { r, g, b, a: 255 }),
    {
        Color { r, g, b, a: 255 }
    }

    /// The fully transparent colour.
    pub fn transparent() -> (c: Color)
        ensures
            c == (Color { r: 0, g: 0, b: 0, a: 0 }),
    {
        Color { r: 0, g: 0, b: 0, a: 0 }
    }

    /// Opaque black.
    pub fn black() -> (c: Color)
        ensures
            c == (Color { r: 0, g: 0, b: 0, a: 255 }),
    {
        Color { r: 0, g: 0, b: 0, a: 255 }
    }
}

/// The dark background of the application.
pub open spec fn background() -> Color {
    Color { r: 0x28, g: 0x28, b: 0x28, a: 255 }
}

/// The light foreground used for text.
pub open spec fn foreground() -> Color {
    Color { r: 0xeb, g: 0xdb, b: 0xb2, a: 255 }
}

/// The teal used for borders.
pub open spec fn border() -> Color {
    Color { r: 0x45, g: 0x85, b: 0x88, a: 255 }
}

/// The brown of the secondary button.
pub open spec fn secondary_background() -> Color {
    Color { r: 0x3c, g: 0x38, b: 0x36, a: 255 }
}

/// The application-level appearance.
#[derive(Debug, Clone, Copy, PartialEq, Eq, Structural)]
pub struct ApplicationAppearance {
    pub background_color: Color,
    pub text_color: Color,
}

/// The appearance of plain text; `None` inherits the ambient colour.
#[derive(Debug, Clone, Copy, PartialEq, Eq, Structural)]
pub struct TextAppearance {
    pub color: Option<Color>,
}

/// The appearance of a container; `None` fields inherit.
#[derive(Debug, Clone, Copy, PartialEq, Eq, Structural)]
pub struct ContainerAppearance {
    pub text_color: Option<Color>,
    pub background: Option<Color>,
    pub border_radius: u32,
    pub border_width: u32,
    pub border_color: Color,
}

impl Default for ContainerAppearance {
    /// The untouched container: everything inherited, no border.
    fn default() -> (a: Self)
        ensures
            a == (ContainerAppearance {
                text_color: None,
                background: None,
                border_radius: 0,
                border_width: 0,
                border_color: Color { r: 0, g: 0, b: 0, a: 0 },
            }),
    {
        ContainerAppearance {
            text_color: None,
            background: None,
            border_radius: 0,
            border_width: 0,
            border_color: Color::transparent(),
        }
    }
}

/// The appearance of a button.
#[derive(Debug, Clone, Copy, PartialEq, Eq, Structural)]
pub struct ButtonAppearance {
    pub background: Option<Color>,
    pub border_radius: u32,
    pub border_width: u32,
    pub border_color: Color,
    pub text_color: Color,
}

impl Default for ButtonAppearance {
    /// The untouched button: no background, no border, black text.
    fn default() -> (a: Self)
        ensures
            a == (ButtonAppearance {
                background: None,
                border_radius: 0,
                border_width: 0,
                border_color: Color { r: 0, g: 0, b: 0, a: 0 },
                text_color: Color { r: 0, g: 0, b: 0, a: 255 },
            }),
    {
        ButtonAppearance {
            background: None,
            border_radius: 0,
            border_width: 0,
            border_color: Color::transparent(),
            text_color: Color::black(),
        }
    }
}

/// The theme itself: one fixed palette.
#[derive(Debug, Clone, Copy, PartialEq, Eq, Structural)]
pub struct Theme;

impl Default for Theme {
    fn default() -> (t: Self)
        ensures
            t == (Theme {  }),
    {
        Theme
    }
}

/// The container styles the theme knows.
#[derive(Debug, Clone, Copy, PartialEq, Eq, Structural)]
pub enum Container {
    /// Inherits everything.
    Plain,
    /// A thin rounded teal border.
    Bordered,
}

impl Default for Container {
    fn default() -> (c: Self)
        ensures
            c is Plain,
    {
        Container::Plain
    }
}

/// The button styles the theme knows.
#[derive(Debug, Clone, Copy, PartialEq, Eq, Structural)]
pub enum Button {
    /// Background colour with a teal border.
    Primary,
    /// A lighter filled button without a border.
    Secondary,
}

impl Default for Button {
    fn default() -> (b: Self)
        ensures
            b is Primary,
    {
        Button::Primary
    }
}

impl Theme {
    /// The application chrome: dark background, light text.
    pub fn appearance(&self) -> (a: ApplicationAppearance)
        ensures
            a == (ApplicationAppearance {
                background_color: background(),
                text_color: foreground(),
            }),
    {
        ApplicationAppearance {
            background_color: Color::rgb(0x28, 0x28, 0x28),
            text_color: Color::rgb(0xeb, 0xdb, 0xb2),
        }
    }

    /// Text takes the light foreground colour.
    pub fn text_appearance(&self) -> (a: TextAppearance)
        ensures
            a == (TextAppearance { color: Some(foreground()) }),
    {
        TextAppearance { color: Some(Color::rgb(0xeb, 0xdb, 0xb2)) }
    }

    /// The appearance of each container style: `Plain` inherits everything,
    /// `Bordered` draws a one-pixel teal border with rounded corners.
    pub fn container_appearance(&self, style: &Container) -> (a: ContainerAppearance)
        ensures
            style is Plain ==> a == (ContainerAppearance {
                text_color: None,
                background: None,
                border_radius: 0,
                border_width: 0,
                border_color: Color { r: 0, g: 0, b: 0, a: 0 },
            }),
            style is Bordered ==> a == (ContainerAppearance {
                text_color: None,
                background: None,
                border_radius: 4,
                border_width: 1,
                border_color: border(),
            }),
    {
        match style {
            Container::Plain => ContainerAppearance::default(),
            Container::Bordered => ContainerAppearance {
                border_color: Color::rgb(0x45, 0x85, 0x88),
                border_width: 1,
                border_radius: 4,
                ..ContainerAppearance::default()
            },
        }
    }

    /// The appearance of each button style when it sits untouched:
    /// `Primary` is the background colour with a rounded teal border,
    /// `Secondary` a lighter fill with no border.
    pub fn active(&self, style: &Button) -> (a: ButtonAppearance)
        ensures
            style is Primary ==> a == (ButtonAppearance {
                background: Some(background()),
                border_radius: 4,
                border_width: 1,
                border_color: border(),
                text_color: Color { r: 0, g: 0, b: 0, a: 255 },
            }),
            style is Secondary ==> a == (ButtonAppearance {
                background: Some(secondary_background()),
                border_radius: 0,
                border_width: 0,
                border_color: Color { r: 0, g: 0, b: 0, a: 0 },
                text_color: Color { r: 0, g: 0, b: 0, a: 255 },
            }),
    {
        match style {
            Button::Primary => ButtonAppearance {
                background: Some(Color::rgb(0x28, 0x28, 0x28)),
                border_radius: 4,
                border_width: 1,
                border_color: Color::rgb(0x45, 0x85, 0x88),
                ..ButtonAppearance::default()
            },
            Button::Secondary => ButtonAppearance {
                background: Some(Color::rgb(0x3c, 0x38, 0x36)),
                ..ButtonAppearance::default()
            },
        }
    }
}

} // verus!
