//! Where captures are kept: one file per capture, named by what was captured
//! and when.

use vstd::prelude::*;
use vstd::string::*;

verus! {

/// The directory, under the application's data directory, that holds the
/// captures. It is created on demand.
pub const CAPTURES_DIR: &'static str = "captures";

/// What a capture takes in.
#[derive(Clone, Copy, Debug, PartialEq, Eq)]
pub enum Target {
    /// The whole primary display.
    Screen,
    /// The region of the primary display that the application window covers.
    Window,
}

impl Target {
    /// The start of the name of every file that holds a capture of this kind.
    pub open spec fn spec_prefix(&self) -> Seq<char> {
        match self {
            Target::Screen => "scorecard"@,
            Target::Window => "gameday"@,
        }
    }

    /// The start of the name of every file that holds a capture of this kind.
    pub fn prefix(&self) -> (prefix: &'static str)
        ensures
            prefix@ == self.spec_prefix(),
    {
        match self {
            Target::Screen => "scorecard",
            Target::Window => "gameday",
        }
    }
}

/// The decimal digit for `d`.
pub open spec fn digit(d: int) -> char {
    if d == 0 {
        '0'
    } else if d == 1 {
        '1'
    } else if d == 2 {
        '2'
    } else if d == 3 {
        '3'
    } else if d == 4 {
        '4'
    } else if d == 5 {
        '5'
    } else if d == 6 {
        '6'
    } else if d == 7 {
        '7'
    } else if d == 8 {
        '8'
    } else {
        '9'
    }
}

/// `n` in decimal, without sign or leading zeros.
pub open spec fn decimal(n: nat) -> Seq<char>
    decreases n,
{
    if n < 10 {
        seq![digit(n as int)]
    } else {
        decimal(n / 10).push(digit((n % 10) as int))
    }
}

/// The name of the file for a capture taken at `unix_seconds`:
/// the prefix, an underscore, the seconds in decimal, and `.png`.
pub open spec fn file_name_of(prefix: Seq<char>, unix_seconds: u64) -> Seq<char> {
    prefix + "_"@ + decimal(unix_seconds as nat) + ".png"@
}

/// The text of one decimal digit.
fn digit_text(d: u64) -> (text: &'static str)
    requires
        d < 10,
    ensures
        text@ == seq![digit(d as int)],
{
    proof {
        reveal_strlit("0");
        reveal_strlit("1");
        reveal_strlit("2");
        reveal_strlit("3");
        reveal_strlit("4");
        reveal_strlit("5");
        reveal_strlit("6");
        reveal_strlit("7");
        reveal_strlit("8");
        reveal_strlit("9");
    }
    let text = if d == 0 {
        "0"
    } else if d == 1 {
        "1"
    } else if d == 2 {
        "2"
    } else if d == 3 {
        "3"
    } else if d == 4 {
        "4"
    } else if d == 5 {
        "5"
    } else if d == 6 {
        "6"
    } else if d == 7 {
        "7"
    } else if d == 8 {
        "8"
    } else {
        "9"
    };
    assert(text@ =~= seq![digit(d as int)]);
    text
}

/// Appends `n` in decimal to `out`.
fn push_decimal(out: &mut String, n: u64)
    ensures
        final(out)@ == old(out)@ + decimal(n as nat),
    decreases n,
{
    if n >= 10 {
        push_decimal(out, n / 10);
    }
    out.append(digit_text(n % 10));
    proof {
        if n >= 10 {
            assert(old(out)@ + decimal((n / 10) as nat) + seq![digit((n % 10) as int)] =~= old(
                out,
            )@ + decimal(n as nat));
        }
    }
}

/// The name of the file for a capture taken at `unix_seconds`.
///
/// Two captures of one kind within the same second get the same name: the
/// caller keeps them a second apart.
pub fn file_name(prefix: &str, unix_seconds: u64) -> (name: String)
    ensures
        name@ == file_name_of(prefix@, unix_seconds),
{
    let mut name = String::from_str(prefix);
    name.append("_");
    push_decimal(&mut name, unix_seconds);
    name.append(".png");
    name
}

} // verus!
