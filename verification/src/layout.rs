//! Choosing and writing the setup for the monitors that were found.

use crate::outputs::Mode;
use crate::outputs::Output;
use crate::outputs::OutputModel;
use crate::outputs::refresh_at;
use crate::outputs::refresh_for;
use crate::text::decimal;
use crate::text::decimal_text;
use crate::text::wide_decimal_text;
use vstd::prelude::*;
use vstd::string::*;

verus! {

/// The commands that switch one output on, with what its `mode` and `pos`
/// lines say. Inside the braces every line begins with `inner`, the closing
/// brace with `outer`.
pub open spec fn block_text(
    name: Seq<char>,
    mode: Seq<char>,
    pos: Seq<char>,
    inner: Seq<char>,
    outer: Seq<char>,
) -> Seq<char> {
    "output \""@ + name + "\" {\n"@ + inner + "mode  "@ + mode + "Hz\n"@ + inner + "pos "@ + pos
        + "\n"@ + inner + "transform normal\n"@ + inner + "scale 1.0\n"@ + inner
        + "scale_filter nearest\n"@ + inner + "adaptive_sync off\n"@ + inner + "dpms on\n"@
        + outer + "}\n"@
}

/// What the `mode` line says of a mode whose refresh rate is written as
/// `refresh`: width, height and rate, without the unit.
pub open spec fn mode_text(mode: Mode, refresh: Seq<char>) -> Seq<char> {
    decimal(mode.width as nat) + "x"@ + decimal(mode.height as nat) + "@"@ + refresh
}

/// The commands that switch `output` on in its first mode, `x_offset` pixels
/// from the left and at the top.
pub open spec fn output_text(output: OutputModel, x_offset: nat, refresh: Seq<char>) -> Seq<
    char,
> {
    block_text(
        output.name,
        mode_text(output.modes[0], refresh),
        decimal(x_offset) + " 0"@,
        "    "@,
        ""@,
    )
}

/// The commands that switch one output on.
pub fn block(name: &str, mode: &str, pos: &str, inner: &str, outer: &str) -> (text: String)
    ensures
        text@ == block_text(name@, mode@, pos@, inner@, outer@),
{
    let mut text = "output \"".to_owned();
    text.append(name);
    text.append("\" {\n");
    text.append(inner);
    text.append("mode  ");
    text.append(mode);
    text.append("Hz\n");
    text.append(inner);
    text.append("pos ");
    text.append(pos);
    text.append("\n");
    text.append(inner);
    text.append("transform normal\n");
    text.append(inner);
    text.append("scale 1.0\n");
    text.append(inner);
    text.append("scale_filter nearest\n");
    text.append(inner);
    text.append("adaptive_sync off\n");
    text.append(inner);
    text.append("dpms on\n");
    text.append(outer);
    text.append("}\n");
    text
}

fn position(x_offset: u128) -> (pos: String)
    ensures
        pos@ == decimal(x_offset as nat) + " 0"@,
{
    let mut pos = wide_decimal_text(x_offset);
    pos.append(" 0");
    pos
}

fn mode_line(mode: Mode, refresh: &str) -> (text: String)
    ensures
        text@ == mode_text(mode, refresh@),
{
    let mut text = decimal_text(mode.width as u64);
    text.append("x");
    text.append(decimal_text(mode.height as u64).as_str());
    text.append("@");
    text.append(refresh);
    text
}

impl Output {
    /// The commands that switch this output on in its first mode, `x_offset`
    /// pixels from the left and at the top. `refresh` is the refresh rate of
    /// that mode as it is to be written, in hertz.
    pub fn format_output(&self, x_offset: u32, refresh: &str) -> (text: String)
        requires
            self.has_mode(),
        ensures
            text@ == output_text(self@, x_offset as nat, refresh@),
    {
        self.format_at(x_offset as u128, refresh)
    }

    fn format_at(&self, x_offset: u128, refresh: &str) -> (text: String)
        requires
            self.has_mode(),
        ensures
            text@ == output_text(self@, x_offset as nat, refresh@),
    {
        let mode = mode_line(self.modes[0], refresh);
        let pos = position(x_offset);
        block(self.name.as_str(), mode.as_str(), pos.as_str(), "    ", "")
    }

    /// Whether `other` was reported with the same name, make, model, serial
    /// number and modes.
    pub fn same_as(&self, other: &Output) -> (same: bool)
        ensures
            same == (self@.name == other@.name && self@.make == other@.make && self@.model
                == other@.model && self@.serial == other@.serial && self@.modes == other@.modes),
    {
        self.name == other.name && self.make == other.make && self.model == other.model
            && self.serial == other.serial && same_modes(&self.modes, &other.modes)
    }
}

/// Whether two lists hold the same modes in the same order.
pub fn same_modes(a: &Vec<Mode>, b: &Vec<Mode>) -> (same: bool)
    ensures
        same == (a@ == b@),
{
    if a.len() != b.len() {
        return false;
    }
    let mut i: usize = 0;
    while i < a.len()
        invariant
            i <= a.len(),
            a.len() == b.len(),
            a@.take(i as int) == b@.take(i as int),
        decreases a.len() - i,
    {
        if a[i] != b[i] {
            return false;
        }
        i += 1;
        assert(a@.take(i as int) =~= a@.take(i - 1).push(a@[i - 1]));
        assert(b@.take(i as int) =~= b@.take(i - 1).push(b@[i - 1]));
    }
    assert(a@.take(i as int) =~= a@);
    assert(b@.take(i as int) =~= b@);
    true
}

/// Whether two outputs were reported with the same name, make, model, serial
/// number and modes.
pub open spec fn same_output(a: OutputModel, b: OutputModel) -> bool {
    a.name == b.name && a.make == b.make && a.model == b.model && a.serial == b.serial && a.modes
        == b.modes
}

/// Whether an output stands in a row from which `left_out` is left out.
pub open spec fn in_row(output: OutputModel, left_out: Option<OutputModel>) -> bool {
    match left_out {
        Some(other) => !same_output(output, other),
        None => true,
    }
}

/// The width of the row that the first `count` outputs make.
pub open spec fn row_width(outputs: Seq<Output>, left_out: Option<OutputModel>, count: int) -> nat
    decreases count,
{
    if count <= 0 {
        0
    } else {
        row_width(outputs, left_out, count - 1) + if in_row(outputs[count - 1]@, left_out) {
            outputs[count - 1]@.modes[0].width as nat
        } else {
            0
        }
    }
}

/// The commands that put the first `count` outputs in a row from left to
/// right, each where the one before it ends.
pub open spec fn row_text(
    outputs: Seq<Output>,
    refresh: Seq<String>,
    left_out: Option<OutputModel>,
    count: int,
) -> Seq<char>
    decreases count,
{
    if count <= 0 {
        Seq::empty()
    } else {
        row_text(outputs, refresh, left_out, count - 1) + if in_row(
            outputs[count - 1]@,
            left_out,
        ) {
            output_text(
                outputs[count - 1]@,
                row_width(outputs, left_out, count - 1),
                refresh_at(refresh, count - 1),
            )
        } else {
            Seq::empty()
        }
    }
}

/// What a row needs: a mode in each output.
pub open spec fn row_ready(outputs: Seq<Output>) -> bool {
    forall|i: int| 0 <= i < outputs.len() ==> (#[trigger] outputs[i]).has_mode()
}

/// Writes the commands that put `outputs` in a row from left to right,
/// leaving out those that equal `left_out`. `refresh` holds for each output,
/// at its place, its refresh rate as it is to be written, in hertz.
pub fn row(outputs: &Vec<Output>, refresh: &Vec<String>, left_out: Option<&Output>) -> (text:
    String)
    requires
        row_ready(outputs@),
    ensures
        text@ == row_text(
            outputs@,
            refresh@,
            match left_out {
                Some(other) => Some(other@),
                None => None,
            },
            outputs@.len() as int,
        ),
{
    let ghost skipped = match left_out {
        Some(other) => Some(other@),
        None => None,
    };
    let mut text = String::new();
    let mut x: u128 = 0;
    let mut i: usize = 0;
    while i < outputs.len()
        invariant
            i <= outputs.len(),
            row_ready(outputs@),
            skipped == match left_out {
                Some(other) => Some(other@),
                None => None,
            },
            x == row_width(outputs@, skipped, i as int),
            x <= i * 0xffff_ffff,
            i <= usize::MAX,
            text@ == row_text(outputs@, refresh@, skipped, i as int),
        decreases outputs.len() - i,
    {
        let output = &outputs[i];
        let included = match left_out {
            Some(other) => !output.same_as(other),
            None => true,
        };
        if included {
            let piece = output.format_at(x, refresh_for(refresh, i));
            text.append(piece.as_str());
            assert(i * 0xffff_ffff + 0xffff_ffff <= 0xffff_ffff_ffff_ffff * 0xffff_ffff
                + 0xffff_ffff) by (nonlinear_arith)
                requires
                    0 <= i <= 0xffff_ffff_ffff_ffff,
            ;
            x += output.width() as u128;
        }
        i += 1;
    }
    text
}

/// Writes the setup that puts every output in a row.
pub fn fallback_setup(outputs: &Vec<Output>, refresh: &Vec<String>) -> (text: String)
    requires
        row_ready(outputs@),
    ensures
        text@ == row_text(outputs@, refresh@, None, outputs@.len() as int),
{
    row(outputs, refresh, None)
}

/// Writes the setup that puts the laptop's own output first and then every
/// other output in a row that begins at the left again.
pub fn fallback_laptop_setup(
    outputs: &Vec<Output>,
    refresh: &Vec<String>,
    builtin: &Output,
    builtin_refresh: &str,
) -> (text: String)
    requires
        row_ready(outputs@),
        builtin.has_mode(),
    ensures
        text@ == output_text(builtin@, 0, builtin_refresh@) + row_text(
            outputs@,
            refresh@,
            Some(builtin@),
            outputs@.len() as int,
        ),
{
    let mut text = builtin.format_output(0, builtin_refresh);
    text.append(row(outputs, refresh, Some(builtin)).as_str());
    text
}

/// The setups that are known, in the order in which they are tried.
#[derive(Clone, Copy, Debug, PartialEq, Eq, Structural)]
pub enum Setup {
    /// Three monitors on the desk at home, the laptop's own switched off.
    HomeDesk,
    /// Two monitors on the other desk, the laptop's own below them.
    DlrDesk,
    /// One monitor above the laptop's own.
    ScreenAbove,
    /// The laptop's own first, then every other output in a row.
    FallbackLaptop,
    /// Every output in a row.
    Fallback,
}

/// Which monitors were found.
#[derive(Clone, Copy, Debug, PartialEq, Eq, Structural)]
pub struct Found {
    pub laptop_builtin: bool,
    pub desk_center: bool,
    pub desk_left: bool,
    pub desk_right: bool,
    pub dlr_left: bool,
    pub dlr_right: bool,
}

/// The setup for the monitors that were found: the first of the known ones
/// whose monitors are all there.
pub open spec fn setup_for(found: Found) -> Setup {
    if found.laptop_builtin && found.desk_left && found.desk_center && found.desk_right {
        Setup::HomeDesk
    } else if found.laptop_builtin && found.dlr_left && found.dlr_right {
        Setup::DlrDesk
    } else if found.laptop_builtin && found.desk_center {
        Setup::ScreenAbove
    } else if found.laptop_builtin {
        Setup::FallbackLaptop
    } else {
        Setup::Fallback
    }
}

/// Chooses the setup for the monitors that were found.
pub fn choose_setup(found: Found) -> (setup: Setup)
    ensures
        setup == setup_for(found),
{
    if found.laptop_builtin && found.desk_left && found.desk_center && found.desk_right {
        Setup::HomeDesk
    } else if found.laptop_builtin && found.dlr_left && found.dlr_right {
        Setup::DlrDesk
    } else if found.laptop_builtin && found.desk_center {
        Setup::ScreenAbove
    } else if found.laptop_builtin {
        Setup::FallbackLaptop
    } else {
        Setup::Fallback
    }
}

/// The command that switches an output off, as the last line of a setup.
pub open spec fn disable_text(name: Seq<char>) -> Seq<char> {
    "output \""@ + name + "\" disable\n    "@
}

/// A block of a fixed setup, with what follows its closing line.
pub open spec fn fixed_block_text(name: Seq<char>, mode: Seq<char>, pos: Seq<char>) -> Seq<char> {
    block_text(name, mode, pos, "        "@, "    "@) + "    "@
}

/// The setup for the desk at home.
pub open spec fn home_desk_text(
    center: Seq<char>,
    right: Seq<char>,
    left: Seq<char>,
    builtin: Seq<char>,
) -> Seq<char> {
    fixed_block_text(center, "1920x1080@144.001"@, "1920 0"@) + fixed_block_text(
        right,
        "1920x1080@60.0"@,
        "3840 0"@,
    ) + fixed_block_text(left, "1920x1200@59.95"@, "0 0"@) + disable_text(builtin)
}

/// The setup for the other desk.
pub open spec fn dlr_desk_text(builtin: Seq<char>, right: Seq<char>, left: Seq<char>) -> Seq<
    char,
> {
    fixed_block_text(builtin, "1920x1200@60.001"@, "1568 1440"@) + fixed_block_text(
        right,
        "2560x1440@59.951"@,
        "2560 0"@,
    ) + fixed_block_text(left, "2560x1440@59.951"@, "0 0"@)
}

/// The setup for one monitor above the laptop's own.
pub open spec fn screen_above_text(builtin: Seq<char>, center: Seq<char>) -> Seq<char> {
    fixed_block_text(builtin, "1920x1200@60.001"@, "0 1080"@) + fixed_block_text(
        center,
        "1920x1080@144.001"@,
        "0 0"@,
    )
}

fn fixed_block(name: &str, mode: &str, pos: &str) -> (text: String)
    ensures
        text@ == fixed_block_text(name@, mode@, pos@),
{
    let mut text = block(name, mode, pos, "        ", "    ");
    text.append("    ");
    text
}

/// Writes the setup for the desk at home.
pub fn home_desk_setup(center: &str, right: &str, left: &str, builtin: &str) -> (text: String)
    ensures
        text@ == home_desk_text(center@, right@, left@, builtin@),
{
    let mut text = fixed_block(center, "1920x1080@144.001", "1920 0");
    text.append(fixed_block(right, "1920x1080@60.0", "3840 0").as_str());
    text.append(fixed_block(left, "1920x1200@59.95", "0 0").as_str());
    text.append("output \"");
    text.append(builtin);
    text.append("\" disable\n    ");
    text
}

/// Writes the setup for the other desk.
pub fn dlr_desk_setup(builtin: &str, right: &str, left: &str) -> (text: String)
    ensures
        text@ == dlr_desk_text(builtin@, right@, left@),
{
    let mut text = fixed_block(builtin, "1920x1200@60.001", "1568 1440");
    text.append(fixed_block(right, "2560x1440@59.951", "2560 0").as_str());
    text.append(fixed_block(left, "2560x1440@59.951", "0 0").as_str());
    text
}

/// Writes the setup for one monitor above the laptop's own.
pub fn screen_above_setup(builtin: &str, center: &str) -> (text: String)
    ensures
        text@ == screen_above_text(builtin@, center@),
{
    let mut text = fixed_block(builtin, "1920x1200@60.001", "0 1080");
    text.append(fixed_block(center, "1920x1080@144.001", "0 0").as_str());
    text
}

} // verus!
