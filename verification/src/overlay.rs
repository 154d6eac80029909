//! The readout in the corner of the window.
//!
//! One text label shows the pose on record. It starts with a greeting and is
//! rewritten whenever the host's refresh timer has just run out. The numbers
//! are printed by the host, which owns the floating point; the library says
//! when the label is due, which numbers are shown, in what order, and what
//! stands around them. Nothing is printed for a frame that shows nothing.

use vstd::prelude::*;
use crate::player::Player;
use crate::scalar::Scalar;
use crate::scene::Rgba;

verus! {

/// The label as it is first put on the screen.
#[derive(Debug)]
pub struct Label {
    pub text: String,
    /// The file from which the font is loaded.
    pub font: String,
    /// The height of the text, in pixels.
    pub font_size: u32,
    pub color: Rgba,
    /// The distance from the top edge of the window, in pixels.
    pub top: u32,
    /// The distance from the left edge of the window, in pixels.
    pub left: u32,
}

/// The numbers of a pose in the order in which the readout shows them: the
/// position's x, y and z, then the quaternion's x, y, z and w.
pub open spec fn shown(player: Player) -> Seq<Scalar> {
    seq![
        player.location.x,
        player.location.y,
        player.location.z,
        player.rotation.x,
        player.rotation.y,
        player.rotation.z,
        player.rotation.w,
    ]
}

/// The text of the readout around seven printed numbers: two lines, each a
/// name, an equals sign and the numbers in round brackets, separated by a
/// comma and a space.
pub open spec fn readout(n: Seq<Seq<char>>) -> Seq<char> {
    "location = ("@ + n[0] + ", "@ + n[1] + ", "@ + n[2] + ")\nrotation = ("@ + n[3] + ", "@ + n[4]
        + ", "@ + n[5] + ", "@ + n[6] + ")"@
}

/// The label that greets the viewer: pale blue, forty pixels high, five
/// pixels from the top and from the left.
pub fn setup_debug_overlay() -> (label: Label)
    ensures
        label.text@ == "welcome"@,
        label.font@ == "FiraSans-Bold.ttf"@,
        label.font_size == 40,
        label.color == (Rgba { red: 5, green: 5, blue: 10, alpha: 10 }),
        label.top == 5,
        label.left == 5,
{
    Label {
        text: String::from_str("welcome"),
        font: String::from_str("FiraSans-Bold.ttf"),
        font_size: 40,
        color: Rgba { red: 5, green: 5, blue: 10, alpha: 10 },
        top: 5,
        left: 5,
    }
}

impl Player {
    /// The numbers that the readout shows, in its order.
    pub fn shown(&self) -> (numbers: [Scalar; 7])
        ensures
            numbers@ == shown(*self),
    {
        [
            self.location.x,
            self.location.y,
            self.location.z,
            self.rotation.x,
            self.rotation.y,
            self.rotation.z,
            self.rotation.w,
        ]
    }
}

/// Sets the text of the readout from the seven numbers as printed, in the
/// order of [`Player::shown`].
pub fn format_readout(printed: &[String; 7]) -> (text: String)
    ensures
        text@ == readout(printed.deep_view()),
{
    let mut text = String::from_str("location = (");
    text.append(printed[0].as_str());
    text.append(", ");
    text.append(printed[1].as_str());
    text.append(", ");
    text.append(printed[2].as_str());
    text.append(")\nrotation = (");
    text.append(printed[3].as_str());
    text.append(", ");
    text.append(printed[4].as_str());
    text.append(", ");
    text.append(printed[5].as_str());
    text.append(", ");
    text.append(printed[6].as_str());
    text.append(")");
    text
}

/// The refresh of one frame. Where the timer has just run out the label is
/// due: the result holds the numbers to show, in the order of the readout,
/// for the host to print and to set with [`format_readout`]. Where it has
/// not, the result is `None` and the label stays as it is.
pub fn debug_overlay(just_finished: bool, player: &Player) -> (numbers: Option<[Scalar; 7]>)
    ensures
        numbers.is_some() == just_finished,
        numbers matches Some(n) ==> n@ == shown(*player),
{
    if just_finished {
        Some(player.shown())
    } else {
        None
    }
}

} // verus!
