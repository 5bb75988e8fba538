//! Layout commands and the text that the window manager reads.

use vstd::prelude::*;

verus! {

/// A split direction.
#[derive(Clone, Copy, Debug, PartialEq, Eq, Structural)]
pub enum Orientation {
    Horizontal,
    Vertical,
}

/// The dimension along which a node is resized.
#[derive(Clone, Copy, Debug, PartialEq, Eq, Structural)]
pub enum Axis {
    Width,
    Height,
}

/// One instruction for the window manager, with the node that it acts on.
#[derive(Clone, Copy, Debug, PartialEq, Eq, Structural)]
pub enum Command {
    /// Give the node the focus.
    Focus { node: i64 },
    /// Let the focused node, `node`, split its next window in `orientation`.
    Split { node: i64, orientation: Orientation },
    /// Set the extent of the focused node, `node`, along `axis` to `percent`
    /// hundredths of its parent's.
    Resize { node: i64, axis: Axis, percent: u32 },
}

/// The character of a decimal digit.
pub open spec fn digit(d: int) -> char {
    if d == 0 {
        '0'
    } else if d == 1 {
        '1'
    } else if d == 2 {
        '2'
    } else if d == 3 {
        '3'
    } else if d == 4 {
        '4'
    } else if d == 5 {
        '5'
    } else if d == 6 {
        '6'
    } else if d == 7 {
        '7'
    } else if d == 8 {
        '8'
    } else {
        '9'
    }
}

/// The decimal digits of a natural number, without leading zeros.
pub open spec fn digits(n: nat) -> Seq<char>
    decreases n,
{
    if n < 10 {
        seq![digit(n as int)]
    } else {
        digits(n / 10).push(digit((n % 10) as int))
    }
}

/// An integer in decimal, with a minus sign where it is negative.
pub open spec fn decimal(n: int) -> Seq<char> {
    if n < 0 {
        seq!['-'] + digits((-n) as nat)
    } else {
        digits(n as nat)
    }
}

/// Calls `i64::to_string`. Trusted: the text is the number in decimal, a
/// minus sign first where it is negative, with no other characters.
#[verifier::external_body]
fn decimal_text(n: i64) -> (text: String)
    ensures
        text@ == decimal(n as int),
{
    n.to_string()
}

impl Orientation {
    /// The other direction.
    pub open spec fn opposite(self) -> Orientation {
        match self {
            Orientation::Horizontal => Orientation::Vertical,
            Orientation::Vertical => Orientation::Horizontal,
        }
    }

    /// The dimension that a split in this direction divides.
    pub open spec fn axis(self) -> Axis {
        match self {
            Orientation::Horizontal => Axis::Width,
            Orientation::Vertical => Axis::Height,
        }
    }

    /// The word for this direction in a command.
    pub open spec fn word(self) -> Seq<char> {
        match self {
            Orientation::Horizontal => "horizontal"@,
            Orientation::Vertical => "vertical"@,
        }
    }

    pub fn flipped(self) -> (r: Orientation)
        ensures
            r == self.opposite(),
    {
        match self {
            Orientation::Horizontal => Orientation::Vertical,
            Orientation::Vertical => Orientation::Horizontal,
        }
    }

    pub fn resize_axis(self) -> (r: Axis)
        ensures
            r == self.axis(),
    {
        match self {
            Orientation::Horizontal => Axis::Width,
            Orientation::Vertical => Axis::Height,
        }
    }
}

impl Axis {
    /// The word for this dimension in a command.
    pub open spec fn word(self) -> Seq<char> {
        match self {
            Axis::Width => "width"@,
            Axis::Height => "height"@,
        }
    }
}

impl Command {
    /// The node that the command acts on.
    pub open spec fn target(self) -> i64 {
        match self {
            Command::Focus { node } => node,
            Command::Split { node, .. } => node,
            Command::Resize { node, .. } => node,
        }
    }

    /// The command as the window manager reads it. Only a focus command
    /// names its node: the others act on the node that has the focus.
    pub open spec fn text(self) -> Seq<char> {
        match self {
            Command::Focus { node } => "[id="@ + decimal(node as int) + "] focus"@,
            Command::Split { orientation, .. } => "split "@ + orientation.word(),
            Command::Resize { axis, percent, .. } => "resize set "@ + axis.word() + " "@ + decimal(
                percent as int,
            ) + " ppt"@,
        }
    }

    pub fn node(&self) -> (id: i64)
        ensures
            id == self.target(),
    {
        match self {
            Command::Focus { node } => *node,
            Command::Split { node, .. } => *node,
            Command::Resize { node, .. } => *node,
        }
    }

    /// Renders the command for the window manager's control channel.
    pub fn to_text(&self) -> (out: String)
        ensures
            out@ == self.text(),
    {
        match self {
            Command::Focus { node } => {
                let mut out = String::from_str("[id=");
                let id = decimal_text(*node);
                out.append(id.as_str());
                out.append("] focus");
                out
            },
            Command::Split { orientation, .. } => {
                let mut out = String::from_str("split ");
                match orientation {
                    Orientation::Horizontal => out.append("horizontal"),
                    Orientation::Vertical => out.append("vertical"),
                }
                out
            },
            Command::Resize { axis, percent, .. } => {
                let mut out = String::from_str("resize set ");
                match axis {
                    Axis::Width => out.append("width"),
                    Axis::Height => out.append("height"),
                }
                out.append(" ");
                let amount = decimal_text(*percent as i64);
                out.append(amount.as_str());
                out.append(" ppt");
                out
            },
        }
    }
}

} // verus!
