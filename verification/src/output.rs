//! The logical description of a display output and how its name is formed.

use crate::mode::Mode;
use vstd::prelude::*;
use vstd::string::StringExecFns;

verus! {

/// Subpixel layout of a panel.
#[derive(Clone, Copy, Debug, PartialEq, Eq, Structural)]
pub enum Subpixel {
    Unknown,
    HorizontalRgb,
    HorizontalBgr,
    VerticalRgb,
    VerticalBgr,
    /// The panel has no subpixel geometry.
    NoGeometry,
}

/// What protocol clients see of one display: its name, its physical size in
/// millimetres, its subpixel layout, the mode it runs and where it sits in the
/// shared display space.
pub struct Output {
    pub name: String,
    pub physical_size: (u32, u32),
    pub subpixel: Subpixel,
    pub mode: Mode,
    pub x: i32,
    pub y: i32,
}

impl Output {
    /// A copy of this description.
    pub fn duplicate(&self) -> (copy: Output)
        ensures
            copy == *self,
    {
        Output {
            name: self.name.clone(),
            physical_size: self.physical_size,
            subpixel: self.subpixel,
            mode: self.mode,
            x: self.x,
            y: self.y,
        }
    }
}

/// The character for one decimal digit.
pub open spec fn digit_char(d: nat) -> char {
    if d == 0 {
        '0'
    } else if d == 1 {
        '1'
    } else if d == 2 {
        '2'
    } else if d == 3 {
        '3'
    } else if d == 4 {
        '4'
    } else if d == 5 {
        '5'
    } else if d == 6 {
        '6'
    } else if d == 7 {
        '7'
    } else if d == 8 {
        '8'
    } else {
        '9'
    }
}

/// Decimal notation of a number, without sign or padding.
pub open spec fn decimal(n: nat) -> Seq<char>
    decreases n,
{
    if n < 10 {
        seq![digit_char(n)]
    } else {
        decimal(n / 10).push(digit_char(n % 10))
    }
}

/// The name the drm crate gives to a connector interface code.
pub uninterp spec fn interface_name(kind: u32) -> Seq<char>;

/// The name of an output: interface name, a hyphen, the interface id.
pub open spec fn output_name_of(label: Seq<char>, id: u32) -> Seq<char> {
    label.push('-') + decimal(id as nat)
}

/// Converts an interface code with the drm crate's `Interface::from` and
/// returns what `Interface::as_str` gives for it. The text is a function of the
/// code alone; nothing more is claimed of it here.
#[verifier::external_body]
fn interface_label(kind: u32) -> (label: String)
    ensures
        label@ == interface_name(kind),
{
    drm::control::connector::Interface::from(kind).as_str().to_string()
}

fn digit_str(d: u32) -> (s: &'static str)
    requires
        d < 10,
    ensures
        s@ == seq![digit_char(d as nat)],
{
    proof {
        reveal_strlit("0");
        reveal_strlit("1");
        reveal_strlit("2");
        reveal_strlit("3");
        reveal_strlit("4");
        reveal_strlit("5");
        reveal_strlit("6");
        reveal_strlit("7");
        reveal_strlit("8");
        reveal_strlit("9");
    }
    let s = if d == 0 {
        "0"
    } else if d == 1 {
        "1"
    } else if d == 2 {
        "2"
    } else if d == 3 {
        "3"
    } else if d == 4 {
        "4"
    } else if d == 5 {
        "5"
    } else if d == 6 {
        "6"
    } else if d == 7 {
        "7"
    } else if d == 8 {
        "8"
    } else {
        "9"
    };
    assert(s@ =~= seq![digit_char(d as nat)]);
    s
}

/// Appends the decimal notation of `n` to `text`.
pub fn push_decimal(text: &mut String, n: u32)
    ensures
        final(text)@ == old(text)@ + decimal(n as nat),
    decreases n,
{
    if n >= 10 {
        push_decimal(text, n / 10);
    }
    text.append(digit_str(n % 10));
    assert(text@ =~= old(text)@ + decimal(n as nat));
}

/// Forms an output's name from the interface's label and the interface id.
pub fn output_name_from(label: &str, id: u32) -> (name: String)
    ensures
        name@ == output_name_of(label@, id),
{
    proof {
        reveal_strlit("-");
    }
    let mut name = String::from_str(label);
    name.append("-");
    assert(name@ =~= label@.push('-'));
    push_decimal(&mut name, id);
    name
}

/// The name of the output behind a connector: the drm crate's name for the
/// interface code, a hyphen, and the interface id in decimal.
pub fn output_name(kind: u32, id: u32) -> (name: String)
    ensures
        name@ == output_name_of(interface_name(kind), id),
{
    let label = interface_label(kind);
    output_name_from(label.as_str(), id)
}

} // verus!
