//! The single synthetic output: a virtual headset display with one fixed,
//! non-negotiable mode.
//!
//! The output is created once at startup, advertises exactly one mode which
//! is immediately marked both current and preferred, and never changes: there
//! is no hotplug, no mode renegotiation and no multi-output support.

use vstd::prelude::*;

verus! {

/// Width of the one advertised mode, in pixels.
pub const OUTPUT_WIDTH: u32 = 4096;

/// Height of the one advertised mode, in pixels.
pub const OUTPUT_HEIGHT: u32 = 4096;

/// Refresh rate of the one advertised mode, in millihertz.
pub const OUTPUT_REFRESH_MHZ: u32 = 60000;

/// Integer scale factor the output reports.
pub const OUTPUT_SCALE: u32 = 2;

/// One display mode: resolution and refresh rate in millihertz.
#[derive(Clone, Copy, PartialEq, Eq, Structural, Debug)]
pub struct OutputMode {
    pub width: u32,
    pub height: u32,
    pub refresh_mhz: u32,
}

/// Orientation applied to the output's content; the virtual display is never
/// rotated or flipped.
#[derive(Clone, Copy, PartialEq, Eq, Structural, Debug)]
pub enum OutputTransform {
    Identity,
}

/// The synthetic display device.  Its mode list holds exactly one entry,
/// marked preferred, for the life of the server; no method mutates it.
pub struct VirtualOutput {
    name: String,
    make: String,
    model: String,
    modes: Vec<OutputMode>,
    preferred: usize,
    scale: u32,
    transform: OutputTransform,
}

/// The one mode the virtual output is configured with.
pub open spec fn configured_mode() -> OutputMode {
    OutputMode { width: OUTPUT_WIDTH, height: OUTPUT_HEIGHT, refresh_mhz: OUTPUT_REFRESH_MHZ }
}

impl VirtualOutput {
    /// The advertised mode list.
    pub closed spec fn spec_modes(&self) -> Seq<OutputMode> {
        self.modes@
    }

    /// Index of the preferred mode within the mode list.
    pub closed spec fn spec_preferred_index(&self) -> int {
        self.preferred as int
    }

    pub closed spec fn spec_scale(&self) -> u32 {
        self.scale
    }

    pub closed spec fn spec_transform(&self) -> OutputTransform {
        self.transform
    }

    pub closed spec fn spec_name(&self) -> Seq<char> {
        self.name@
    }

    pub closed spec fn spec_make(&self) -> Seq<char> {
        self.make@
    }

    pub closed spec fn spec_model(&self) -> Seq<char> {
        self.model@
    }

    /// The output is well formed when it advertises exactly one mode and that
    /// mode is the preferred one.
    pub open spec fn wf(&self) -> bool {
        &&& self.spec_modes().len() == 1
        &&& self.spec_preferred_index() == 0
    }

    /// Build the virtual headset display: one mode, marked preferred, with
    /// the configured resolution, refresh rate and integer scale, an identity
    /// transform, and descriptive (non-functional) physical metadata.
    pub fn create() -> (output: Self)
        ensures
            output.wf(),
            output.spec_modes() =~= seq![configured_mode()],
            output.spec_scale() == OUTPUT_SCALE,
            output.spec_transform() == OutputTransform::Identity,
            output.spec_name() == "1x"@,
            output.spec_make() == "Virtual XR Display"@,
            output.spec_model() == "Your Headset Name Here"@,
    {
        let mode = OutputMode {
            width: OUTPUT_WIDTH,
            height: OUTPUT_HEIGHT,
            refresh_mhz: OUTPUT_REFRESH_MHZ,
        };
        let mut modes: Vec<OutputMode> = Vec::new();
        modes.push(mode);
        VirtualOutput {
            name: "1x".to_owned(),
            make: "Virtual XR Display".to_owned(),
            model: "Your Headset Name Here".to_owned(),
            modes,
            preferred: 0,
            scale: OUTPUT_SCALE,
            transform: OutputTransform::Identity,
        }
    }

    /// How many modes the output advertises: always exactly one.
    pub fn mode_count(&self) -> (count: usize)
        ensures
            count == self.spec_modes().len(),
    {
        self.modes.len()
    }

    /// The preferred mode, which is also the current mode.
    pub fn preferred_mode(&self) -> (mode: OutputMode)
        requires
            self.wf(),
        ensures
            mode == self.spec_modes()[self.spec_preferred_index()],
    {
        self.modes[self.preferred]
    }

    /// The current mode: the virtual display has exactly one, so it is the
    /// preferred mode as well.
    pub fn current_mode(&self) -> (mode: OutputMode)
        requires
            self.wf(),
        ensures
            mode == self.spec_modes()[0],
            mode == self.spec_modes()[self.spec_preferred_index()],
    {
        self.modes[0]
    }

    pub fn scale(&self) -> (scale: u32)
        ensures
            scale == self.spec_scale(),
    {
        self.scale
    }

    pub fn transform(&self) -> (transform: OutputTransform)
        ensures
            transform == self.spec_transform(),
    {
        self.transform
    }

    pub fn name(&self) -> (name: &String)
        ensures
            name@ == self.spec_name(),
    {
        &self.name
    }

    pub fn make(&self) -> (make: &String)
        ensures
            make@ == self.spec_make(),
    {
        &self.make
    }

    pub fn model(&self) -> (model: &String)
        ensures
            model@ == self.spec_model(),
    {
        &self.model
    }
}

} // verus!
