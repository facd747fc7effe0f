//! Outputs: the places where frames are shown.
use vstd::prelude::*;
use vstd::string::*;
use crate::rendering::WaysightRenderer;

verus! {

/// A width and a height, in pixels.
#[derive(Clone, Copy, Debug, PartialEq, Eq, Structural)]
pub struct Size {
    pub w: i32,
    pub h: i32,
}

/// A rectangle: where its corner is, and how far it reaches.
#[derive(Clone, Copy, Debug, PartialEq, Eq, Structural)]
pub struct Rectangle {
    pub x: i32,
    pub y: i32,
    pub w: i32,
    pub h: i32,
}

/// The rectangle that covers everything of a size.
pub open spec fn full_rectangle(size: Size) -> Rectangle {
    Rectangle { x: 0, y: 0, w: size.w, h: size.h }
}

/// A size and how often it is refreshed, in thousandths of a hertz.
#[derive(Clone, Copy, Debug, PartialEq, Eq, Structural)]
pub struct Mode {
    pub size: Size,
    pub refresh: i32,
}

/// How an output is turned or mirrored.
#[derive(Clone, Copy, Debug, PartialEq, Eq, Structural)]
pub enum Transform {
    Normal,
    Rotated90,
    Rotated180,
    Rotated270,
    Flipped,
    Flipped90,
    Flipped180,
    Flipped270,
}

/// How the colours of a pixel lie side by side.
#[derive(Clone, Copy, Debug, PartialEq, Eq, Structural)]
pub enum Subpixel {
    Unknown,
    HorizontalRgb,
    HorizontalBgr,
    VerticalRgb,
    VerticalBgr,
    Absent,
}

/// What an output is as a thing.
pub struct PhysicalProperties {
    /// Its size in millimetres.
    pub size: Size,
    pub subpixel: Subpixel,
    pub make: String,
    pub model: String,
}

/// One display sink.
pub struct Output {
    pub name: String,
    pub physical: PhysicalProperties,
    /// The mode that is shown, once one is set.
    pub mode: Option<Mode>,
    pub transform: Transform,
    /// Where the output lies among the outputs.
    pub location: (i32, i32),
}

/// An output after a change of its state: what is given replaces what was
/// there, what is not given stays.
pub open spec fn output_with(
    output: Output,
    mode: Option<Mode>,
    transform: Option<Transform>,
    location: Option<(i32, i32)>,
) -> Output {
    Output {
        mode: match mode {
            Some(mode) => Some(mode),
            None => output.mode,
        },
        transform: match transform {
            Some(transform) => transform,
            None => output.transform,
        },
        location: match location {
            Some(location) => location,
            None => output.location,
        },
        ..output
    }
}

impl Output {
    /// An output that shows no mode yet, is not turned, and lies at the
    /// origin.
    pub fn new(name: String, physical: PhysicalProperties) -> (output: Output)
        ensures
            output == (Output {
                name,
                physical,
                mode: None,
                transform: Transform::Normal,
                location: (0, 0),
            }),
    {
        Output { name, physical, mode: None, transform: Transform::Normal, location: (0, 0) }
    }

    /// Changes the mode, the transform and the location, as far as they
    /// are given.
    pub fn change_current_state(
        &mut self,
        mode: Option<Mode>,
        transform: Option<Transform>,
        location: Option<(i32, i32)>,
    )
        ensures
            *final(self) == output_with(*old(self), mode, transform, location),
    {
        match mode {
            Some(mode) => {
                self.mode = Some(mode);
            },
            None => {},
        }
        match transform {
            Some(transform) => {
                self.transform = transform;
            },
            None => {},
        }
        match location {
            Some(location) => {
                self.location = location;
            },
            None => {},
        }
    }
}

/// The refresh rate in thousandths of a hertz for one in hertz: a thousand
/// times as much, and the largest number that a mode can hold where that
/// would be more.
pub open spec fn millihertz(hertz: u32) -> i32 {
    if hertz * 1000 <= i32::MAX {
        (hertz * 1000) as i32
    } else {
        i32::MAX
    }
}

impl Mode {
    /// The mode for a width and a height in pixels and a refresh rate in
    /// hertz, as display hardware lists them.
    pub fn from_timings(width: u16, height: u16, hertz: u32) -> (mode: Mode)
        ensures
            mode == (Mode {
                size: Size { w: width as i32, h: height as i32 },
                refresh: millihertz(hertz),
            }),
    {
        let refresh = if hertz <= 2_147_483 {
            (hertz * 1000) as i32
        } else {
            i32::MAX
        };
        Mode { size: Size { w: width as i32, h: height as i32 }, refresh }
    }
}

/// What a connector says of the display that is plugged into it.
pub struct ConnectorInfo {
    /// The name of the connector, such as `HDMI-A-1`.
    pub name: String,
    /// The size of the display in millimetres; zero where it is not known.
    pub size: Size,
    /// The modes of the display, in the order in which it lists them.
    pub modes: Vec<Mode>,
}

/// Whether an output is the one that goes with a connector: it carries the
/// connector's name and the display's size, shows the first mode that the
/// display lists, if it lists any, is not turned, and lies at the origin.
/// Nothing is known of who made the display.
pub open spec fn is_connector_output(output: Output, info: ConnectorInfo) -> bool {
    &&& output.name == info.name
    &&& output.physical.size == info.size
    &&& output.physical.subpixel == Subpixel::Unknown
    &&& output.physical.make@ == "Unknown"@
    &&& output.physical.model@ == "Unknown"@
    &&& output.mode == (if info.modes@.len() > 0 {
        Some(info.modes@[0])
    } else {
        None
    })
    &&& output.transform == Transform::Normal
    &&& output.location == (0i32, 0i32)
}

/// Makes the output for a connector that has come with a CRTC.
pub fn connector_output(info: ConnectorInfo) -> (output: Output)
    ensures
        is_connector_output(output, info),
{
    let mode = if info.modes.len() > 0 {
        Some(info.modes[0])
    } else {
        None
    };
    let mut output = Output::new(
        info.name,
        PhysicalProperties {
            size: info.size,
            subpixel: Subpixel::Unknown,
            make: String::from_str("Unknown"),
            model: String::from_str("Unknown"),
        },
    );
    output.change_current_state(mode, None, None);
    output
}

/// What a damage tracker was made for. It keeps the history of what has
/// changed on an output; the history itself lives with the renderer.
#[derive(Clone, Copy, Debug, PartialEq, Eq, Structural)]
pub struct DamageTracker {
    pub mode: Option<Mode>,
    pub transform: Transform,
}

impl DamageTracker {
    /// A tracker for an output as it is now.
    pub fn from_output(output: &Output) -> (tracker: DamageTracker)
        ensures
            tracker == (DamageTracker { mode: output.mode, transform: output.transform }),
    {
        DamageTracker { mode: output.mode, transform: output.transform }
    }
}

/// An output with what it takes to draw on it.
pub struct WaysightOutput {
    pub output: Output,
    pub renderer: WaysightRenderer,
    pub damage_tracker: Option<DamageTracker>,
}

impl WaysightOutput {
    /// Puts an output and a renderer together, with a damage tracker for
    /// the output if one is asked for.
    pub fn new(output: Output, renderer: WaysightRenderer, create_damage_tracker: bool) -> (r:
        WaysightOutput)
        ensures
            r.output == output,
            r.renderer == renderer,
            r.damage_tracker == (if create_damage_tracker {
                Some(DamageTracker { mode: output.mode, transform: output.transform })
            } else {
                None
            }),
    {
        let damage_tracker = if create_damage_tracker {
            Some(DamageTracker::from_output(&output))
        } else {
            None
        };
        WaysightOutput { output, renderer, damage_tracker }
    }
}

} // verus!
