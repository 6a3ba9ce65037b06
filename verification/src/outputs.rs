//! The outputs that the compositor reports, and the configuration that is
//! built for them.

use crate::swaymsg::SwayOutput;
use crate::swaymsg::SwayOutputModel;
use crate::text::decimal;
use crate::text::decimal_text;
use vstd::prelude::*;
use vstd::string::*;

verus! {

/// A video mode: its size in pixels and its refresh rate in millihertz.
#[derive(Clone, Copy, Debug, PartialEq, Eq, Structural)]
pub struct Mode {
    pub width: u32,
    pub height: u32,
    pub refresh: u32,
}

/// The position of an output in the list that the compositor reported.
#[derive(Clone, Copy, Debug, PartialEq, Eq, Structural)]
pub struct OutputRef(pub usize);

/// An output as the compositor reported it, with its position in the list.
#[derive(Clone, Debug, PartialEq, Eq)]
pub struct Output {
    pub index: OutputRef,
    pub name: String,
    pub make: String,
    pub model: String,
    pub serial: String,
    pub modes: Vec<Mode>,
}

/// An [`Output`] with its texts and modes as sequences.
pub struct OutputModel {
    pub index: OutputRef,
    pub name: Seq<char>,
    pub make: Seq<char>,
    pub model: Seq<char>,
    pub serial: Seq<char>,
    pub modes: Seq<Mode>,
}

impl View for Output {
    type V = OutputModel;

    open spec fn view(&self) -> OutputModel {
        OutputModel {
            index: self.index,
            name: self.name@,
            make: self.make@,
            model: self.model@,
            serial: self.serial@,
            modes: self.modes@,
        }
    }
}

/// What is to be set for one output.
#[derive(Clone, Debug)]
pub struct OutputConfig {
    name: String,
    modes: Vec<Mode>,
    enabled: bool,
    x_offset: Option<u32>,
    y_offset: Option<u32>,
    background: Option<&'static str>,
    stub: OutputRef,
}

/// An [`OutputConfig`] with its texts and modes as sequences.
pub struct OutputConfigModel {
    pub name: Seq<char>,
    pub modes: Seq<Mode>,
    pub enabled: bool,
    pub x_offset: Option<u32>,
    pub y_offset: Option<u32>,
    pub background: Option<Seq<char>>,
    pub stub: OutputRef,
}

impl View for OutputConfig {
    type V = OutputConfigModel;

    closed spec fn view(&self) -> OutputConfigModel {
        OutputConfigModel {
            name: self.name@,
            modes: self.modes@,
            enabled: self.enabled,
            x_offset: self.x_offset,
            y_offset: self.y_offset,
            background: match self.background {
                Some(background) => Some(background@),
                None => None,
            },
            stub: self.stub,
        }
    }
}

/// The outputs that were found and the configuration that each starts with.
#[derive(Debug)]
pub struct SwayOutputs {
    outputs: Vec<Output>,
    configs: Vec<OutputConfig>,
}

/// The configurations of all outputs, open to changes.
#[derive(Debug)]
pub struct OutputConfigEnv(pub Vec<OutputConfig>);

/// The output that stands for what was reported at position `index`.
pub open spec fn output_of(index: int, reported: SwayOutputModel) -> OutputModel {
    OutputModel {
        index: OutputRef(index as usize),
        name: reported.name,
        make: reported.make,
        model: reported.model,
        serial: reported.serial,
        modes: reported.modes,
    }
}

/// The configuration that an output starts with: enabled, with nothing set.
pub open spec fn config_of(index: int, reported: SwayOutputModel) -> OutputConfigModel {
    OutputConfigModel {
        name: reported.name,
        modes: reported.modes,
        enabled: true,
        x_offset: None,
        y_offset: None,
        background: None,
        stub: OutputRef(index as usize),
    }
}

/// The commands that set an enabled output to its first mode at a position,
/// with a background image.
pub open spec fn enabled_output_text(
    name: Seq<char>,
    mode: Mode,
    refresh: Seq<char>,
    x_offset: u32,
    y_offset: u32,
    bg_path: Seq<char>,
    background: Seq<char>,
) -> Seq<char> {
    "output \""@ + name + "\" {\n                mode  "@ + decimal(mode.width as nat) + "x"@
        + decimal(mode.height as nat) + "@"@ + refresh + "Hz\n                pos "@ + decimal(
        x_offset as nat,
    ) + " "@ + decimal(y_offset as nat)
        + "\n                transform normal\n                scale 1.0\n                scale_filter nearest\n                adaptive_sync off\n                dpms on\n                bg "@
        + bg_path + "/"@ + background + "\n            }\n            "@
}

/// The command that switches an output off.
pub open spec fn disabled_output_text(name: Seq<char>) -> Seq<char> {
    "output \""@ + name + "\" disable"@
}

/// The commands for one configuration: where nothing was set, the position
/// is 0 and the background is `default_background`.
pub open spec fn config_text(
    config: OutputConfigModel,
    refresh: Seq<char>,
    bg_path: Seq<char>,
    default_background: Seq<char>,
) -> Seq<char> {
    if config.enabled {
        enabled_output_text(
            config.name,
            config.modes[0],
            refresh,
            match config.x_offset {
                Some(x) => x,
                None => 0,
            },
            match config.y_offset {
                Some(y) => y,
                None => 0,
            },
            bg_path,
            match config.background {
                Some(background) => background,
                None => default_background,
            },
        )
    } else {
        disabled_output_text(config.name)
    }
}

/// The refresh rate that is written for the output at `index`: the text at
/// that place in `refresh`, and nothing where `refresh` has no such place.
pub open spec fn refresh_at(refresh: Seq<String>, index: int) -> Seq<char> {
    if 0 <= index < refresh.len() {
        refresh[index]@
    } else {
        Seq::empty()
    }
}

/// The refresh rate that is written for the output at `index`.
pub fn refresh_for(refresh: &Vec<String>, index: usize) -> (text: &str)
    ensures
        text@ == refresh_at(refresh@, index as int),
{
    if index < refresh.len() {
        refresh[index].as_str()
    } else {
        proof {
            reveal_strlit("");
            assert(""@ =~= Seq::<char>::empty());
        }
        ""
    }
}

/// The commands for the first `count` configurations, one after the other.
pub open spec fn setup_text(
    configs: Seq<OutputConfig>,
    refresh: Seq<String>,
    bg_path: Seq<char>,
    default_background: Seq<char>,
    count: int,
) -> Seq<char>
    decreases count,
{
    if count <= 0 {
        Seq::empty()
    } else {
        setup_text(configs, refresh, bg_path, default_background, count - 1) + config_text(
            configs[count - 1]@,
            refresh_at(refresh, count - 1),
            bg_path,
            default_background,
        )
    }
}

/// A copy of `modes`.
pub fn copy_modes(modes: &Vec<Mode>) -> (copy: Vec<Mode>)
    ensures
        copy@ == modes@,
{
    let mut copy: Vec<Mode> = Vec::new();
    let mut i: usize = 0;
    while i < modes.len()
        invariant
            i <= modes.len(),
            copy@ == modes@.take(i as int),
        decreases modes.len() - i,
    {
        copy.push(modes[i]);
        i += 1;
        assert(copy@ =~= modes@.take(i as int));
    }
    assert(modes@.take(i as int) =~= modes@);
    copy
}

impl PartialEq for OutputConfig {
    /// Two configurations are the same where they are for the same output.
    fn eq(&self, other: &Self) -> (same: bool) {
        self.stub.0 == other.stub.0
    }
}

impl vstd::std_specs::cmp::PartialEqSpecImpl for OutputConfig {
    open spec fn obeys_eq_spec() -> bool {
        true
    }

    open spec fn eq_spec(&self, other: &Self) -> bool {
        self@.stub.0 == other@.stub.0
    }
}

impl Eq for OutputConfig {

}

impl core::ops::Deref for SwayOutputs {
    type Target = Vec<Output>;

    fn deref(&self) -> (outputs: &Vec<Output>)
        ensures
            outputs@ == self.outputs(),
    {
        &self.outputs
    }
}

impl core::ops::Deref for Output {
    type Target = OutputRef;

    fn deref(&self) -> (index: &OutputRef)
        ensures
            *index == self.index,
    {
        &self.index
    }
}

impl core::ops::Deref for OutputConfig {
    type Target = OutputRef;

    fn deref(&self) -> (stub: &OutputRef)
        ensures
            *stub == self@.stub,
    {
        &self.stub
    }
}

impl Output {
    /// Whether the output has a mode; its first mode is the one it is set to.
    pub open spec fn has_mode(&self) -> bool {
        self.modes@.len() > 0
    }

    /// The width of the first mode.
    pub fn width(&self) -> (width: u32)
        requires
            self.has_mode(),
        ensures
            width == self.modes@[0].width,
    {
        self.modes[0].width
    }

    /// The height of the first mode.
    pub fn height(&self) -> (height: u32)
        requires
            self.has_mode(),
        ensures
            height == self.modes@[0].height,
    {
        self.modes[0].height
    }

    /// The refresh rate of the first mode, in millihertz.
    pub fn refresh_millihertz(&self) -> (refresh: u32)
        requires
            self.has_mode(),
        ensures
            refresh == self.modes@[0].refresh,
    {
        self.modes[0].refresh
    }
}

impl OutputConfig {
    /// Whether the output has a mode; its first mode is the one it is set to.
    pub open spec fn has_mode(&self) -> bool {
        self@.modes.len() > 0
    }

    /// The width of the first mode.
    pub fn width(&self) -> (width: u32)
        requires
            self.has_mode(),
        ensures
            width == self@.modes[0].width,
    {
        self.modes[0].width
    }

    /// The height of the first mode.
    pub fn height(&self) -> (height: u32)
        requires
            self.has_mode(),
        ensures
            height == self@.modes[0].height,
    {
        self.modes[0].height
    }

    /// The refresh rate of the first mode, in millihertz.
    pub fn refresh_millihertz(&self) -> (refresh: u32)
        requires
            self.has_mode(),
        ensures
            refresh == self@.modes[0].refresh,
    {
        self.modes[0].refresh
    }

    /// Sets the horizontal position.
    pub fn x(&mut self, x: u32) -> (config: &mut Self)
        ensures
            config@ == (OutputConfigModel { x_offset: Some(x), ..old(self)@ }),
            *final(self) == *final(config),
    {
        self.x_offset = Some(x);
        self
    }

    /// Sets the vertical position.
    pub fn y(&mut self, y: u32) -> (config: &mut Self)
        ensures
            config@ == (OutputConfigModel { y_offset: Some(y), ..old(self)@ }),
            *final(self) == *final(config),
    {
        self.y_offset = Some(y);
        self
    }

    /// Sets the background image.
    pub fn bg(&mut self, background: &'static str) -> (config: &mut Self)
        ensures
            config@ == (OutputConfigModel { background: Some(background@), ..old(self)@ }),
            *final(self) == *final(config),
    {
        self.background = Some(background);
        self
    }

    /// Switches the output off.
    pub fn disable(&mut self)
        ensures
            final(self)@ == (OutputConfigModel { enabled: false, ..old(self)@ }),
    {
        self.enabled = false;
    }

    /// A configuration with the same settings for the same output.
    pub fn duplicate(&self) -> (copy: OutputConfig)
        ensures
            copy@ == self@,
    {
        OutputConfig {
            name: self.name.clone(),
            modes: copy_modes(&self.modes),
            enabled: self.enabled,
            x_offset: self.x_offset,
            y_offset: self.y_offset,
            background: self.background,
            stub: self.stub,
        }
    }

    /// The commands for this configuration. `refresh` is the refresh rate of
    /// the first mode as it is to be written, in hertz.
    pub fn commands(&self, refresh: &str, bg_path: &str, default_background: &str) -> (text:
        String)
        requires
            self@.enabled ==> self.has_mode(),
        ensures
            text@ == config_text(self@, refresh@, bg_path@, default_background@),
    {
        if self.enabled {
            let x_offset = match self.x_offset {
                Some(x) => x,
                None => 0,
            };
            let y_offset = match self.y_offset {
                Some(y) => y,
                None => 0,
            };
            let background = match self.background {
                Some(background) => background,
                None => default_background,
            };
            let mut text = "output \"".to_owned();
            text.append(self.name.as_str());
            text.append("\" {\n                mode  ");
            text.append(decimal_text(self.width() as u64).as_str());
            text.append("x");
            text.append(decimal_text(self.height() as u64).as_str());
            text.append("@");
            text.append(refresh);
            text.append("Hz\n                pos ");
            text.append(decimal_text(x_offset as u64).as_str());
            text.append(" ");
            text.append(decimal_text(y_offset as u64).as_str());
            text.append(
                "\n                transform normal\n                scale 1.0\n                scale_filter nearest\n                adaptive_sync off\n                dpms on\n                bg ",
            );
            text.append(bg_path);
            text.append("/");
            text.append(background);
            text.append("\n            }\n            ");
            text
        } else {
            let mut text = "output \"".to_owned();
            text.append(self.name.as_str());
            text.append("\" disable");
            text
        }
    }

    /// Whether the output is switched on.
    pub fn is_enabled(&self) -> (enabled: bool)
        ensures
            enabled == self@.enabled,
    {
        self.enabled
    }

    /// The number of modes that the output has.
    pub fn mode_count(&self) -> (count: usize)
        ensures
            count == self@.modes.len(),
    {
        self.modes.len()
    }

    /// The name of the output.
    pub fn name(&self) -> (name: &str)
        ensures
            name@ == self@.name,
    {
        self.name.as_str()
    }

    /// The output that this configuration is for.
    pub fn stub(&self) -> (stub: OutputRef)
        ensures
            stub == self@.stub,
    {
        self.stub
    }
}

impl OutputConfigEnv {
    /// The commands for all configurations, in the order of the outputs.
    /// `refresh` holds for each output, at its place, its refresh rate as it
    /// is to be written, in hertz.
    pub fn setup_string(
        &self,
        refresh: &Vec<String>,
        bg_path: &str,
        default_background: &str,
    ) -> (text: String)
        requires
            forall|i: int|
                0 <= i < self.0@.len() && (#[trigger] self.0@[i])@.enabled
                    ==> self.0@[i].has_mode(),
        ensures
            text@ == setup_text(
                self.0@,
                refresh@,
                bg_path@,
                default_background@,
                self.0@.len() as int,
            ),
    {
        let mut text = String::new();
        let mut i: usize = 0;
        while i < self.0.len()
            invariant
                i <= self.0@.len(),
                forall|j: int|
                    0 <= j < self.0@.len() && (#[trigger] self.0@[j])@.enabled
                        ==> self.0@[j].has_mode(),
                text@ == setup_text(self.0@, refresh@, bg_path@, default_background@, i as int),
            decreases self.0@.len() - i,
        {
            let piece = self.0[i].commands(refresh_for(refresh, i), bg_path, default_background);
            text.append(piece.as_str());
            i += 1;
        }
        text
    }

    /// The configuration of the output at `stub`, open to changes.
    pub fn config(&mut self, stub: &OutputRef) -> (config: &mut OutputConfig)
        requires
            stub.0 < old(self).0@.len(),
        ensures
            *config == old(self).0@[stub.0 as int],
            final(self).0@ == old(self).0@.update(stub.0 as int, *final(config)),
    {
        &mut self.0[stub.0]
    }
}

impl SwayOutputs {
    /// The outputs in the order in which they were reported, each with its
    /// position, and for each the configuration it starts with.
    pub fn get_outputs(reported: Vec<SwayOutput>) -> (found: SwayOutputs)
        ensures
            found.outputs().len() == reported.len(),
            found.configs().len() == reported.len(),
            forall|i: int|
                0 <= i < reported.len() ==> (#[trigger] found.outputs()[i])@ == output_of(
                    i,
                    reported[i]@,
                ),
            forall|i: int|
                0 <= i < reported.len() ==> (#[trigger] found.configs()[i])@ == config_of(
                    i,
                    reported[i]@,
                ),
    {
        let mut outputs: Vec<Output> = Vec::new();
        let mut configs: Vec<OutputConfig> = Vec::new();
        let mut i: usize = 0;
        while i < reported.len()
            invariant
                i <= reported.len(),
                outputs.len() == i,
                configs.len() == i,
                forall|j: int| 0 <= j < i ==> (#[trigger] outputs[j])@ == output_of(j, reported[j]@),
                forall|j: int| 0 <= j < i ==> (#[trigger] configs[j])@ == config_of(j, reported[j]@),
            decreases reported.len() - i,
        {
            let output = &reported[i];
            configs.push(
                OutputConfig {
                    name: output.name.clone(),
                    modes: copy_modes(&output.modes),
                    enabled: true,
                    x_offset: None,
                    y_offset: None,
                    background: None,
                    stub: OutputRef(i),
                },
            );
            outputs.push(
                Output {
                    index: OutputRef(i),
                    name: output.name.clone(),
                    make: output.make.clone(),
                    model: output.model.clone(),
                    serial: output.serial.clone(),
                    modes: copy_modes(&output.modes),
                },
            );
            i += 1;
        }
        SwayOutputs { outputs, configs }
    }

    /// A copy of the configurations that the outputs start with, open to
    /// changes.
    pub fn config_env(&self) -> (env: OutputConfigEnv)
        ensures
            env.0@.len() == self.configs().len(),
            forall|i: int|
                0 <= i < self.configs().len() ==> (#[trigger] env.0@[i])@ == self.configs()[i]@,
    {
        let mut copies: Vec<OutputConfig> = Vec::new();
        let mut i: usize = 0;
        while i < self.configs.len()
            invariant
                i <= self.configs.len(),
                copies.len() == i,
                forall|j: int| 0 <= j < i ==> (#[trigger] copies[j])@ == self.configs[j]@,
            decreases self.configs.len() - i,
        {
            copies.push(self.configs[i].duplicate());
            i += 1;
        }
        OutputConfigEnv(copies)
    }

    /// The outputs, in the order in which they were reported.
    pub closed spec fn outputs(&self) -> Seq<Output> {
        self.outputs@
    }

    /// The configuration that each output starts with.
    pub closed spec fn configs(&self) -> Seq<OutputConfig> {
        self.configs@
    }

    /// The outputs, in the order in which they were reported.
    pub fn as_outputs(&self) -> (outputs: &Vec<Output>)
        ensures
            outputs@ == self.outputs(),
    {
        &self.outputs
    }
}

} // verus!
