//! The formatting codes that the stats service names in a player's record.

use crate::text::same_text;
use vstd::prelude::*;

verus! {

/// A colour or style of text.
#[derive(Clone, Copy, Debug, PartialEq, Eq, Structural)]
pub enum Code {
    Black,
    DarkBlue,
    DarkGreen,
    DarkAqua,
    DarkRed,
    DarkPurple,
    Gold,
    Gray,
    DarkGray,
    Blue,
    Green,
    Aqua,
    Red,
    LightPurple,
    Yellow,
    White,
    Bold,
    Strikethrough,
    Underline,
    Italic,
    Reset,
    Magic,
}

impl Code {
    /// The name under which the stats service refers to this code.
    pub open spec fn name(self) -> Seq<char> {
        match self {
            Code::Black => "BLACK"@,
            Code::DarkBlue => "DARK_BLUE"@,
            Code::DarkGreen => "DARK_GREEN"@,
            Code::DarkAqua => "DARK_AQUA"@,
            Code::DarkRed => "DARK_RED"@,
            Code::DarkPurple => "DARK_PURPLE"@,
            Code::Gold => "GOLD"@,
            Code::Gray => "GRAY"@,
            Code::DarkGray => "DARK_GRAY"@,
            Code::Blue => "BLUE"@,
            Code::Green => "GREEN"@,
            Code::Aqua => "AQUA"@,
            Code::Red => "RED"@,
            Code::LightPurple => "LIGHT_PURPLE"@,
            Code::Yellow => "YELLOW"@,
            Code::White => "WHITE"@,
            Code::Bold => "BOLD"@,
            Code::Strikethrough => "STRIKETHROUGH"@,
            Code::Underline => "UNDERLINE"@,
            Code::Italic => "ITALIC"@,
            Code::Reset => "RESET"@,
            Code::Magic => "MAGIC"@,
        }
    }

    /// The two characters that switch text to this code.
    pub open spec fn spec_get_code(self) -> Seq<char> {
        match self {
            Code::Black => "§0"@,
            Code::DarkBlue => "§1"@,
            Code::DarkGreen => "§2"@,
            Code::DarkAqua => "§3"@,
            Code::DarkRed => "§4"@,
            Code::DarkPurple => "§5"@,
            Code::Gold => "§6"@,
            Code::Gray => "§7"@,
            Code::DarkGray => "§8"@,
            Code::Blue => "§9"@,
            Code::Green => "§a"@,
            Code::Aqua => "§b"@,
            Code::Red => "§c"@,
            Code::LightPurple => "§d"@,
            Code::Yellow => "§e"@,
            Code::White => "§f"@,
            Code::Bold => "§l"@,
            Code::Strikethrough => "§m"@,
            Code::Underline => "§n"@,
            Code::Italic => "§o"@,
            Code::Reset => "§r"@,
            Code::Magic => "§k"@,
        }
    }

    /// The code of the given name, where there is one.
    pub open spec fn spec_of(name: Seq<char>) -> Option<Code> {
        if name == "BLACK"@ {
            Some(Code::Black)
        } else if name == "DARK_BLUE"@ {
            Some(Code::DarkBlue)
        } else if name == "DARK_GREEN"@ {
            Some(Code::DarkGreen)
        } else if name == "DARK_AQUA"@ {
            Some(Code::DarkAqua)
        } else if name == "DARK_RED"@ {
            Some(Code::DarkRed)
        } else if name == "DARK_PURPLE"@ {
            Some(Code::DarkPurple)
        } else if name == "GOLD"@ {
            Some(Code::Gold)
        } else if name == "GRAY"@ {
            Some(Code::Gray)
        } else if name == "DARK_GRAY"@ {
            Some(Code::DarkGray)
        } else if name == "BLUE"@ {
            Some(Code::Blue)
        } else if name == "GREEN"@ {
            Some(Code::Green)
        } else if name == "AQUA"@ {
            Some(Code::Aqua)
        } else if name == "RED"@ {
            Some(Code::Red)
        } else if name == "LIGHT_PURPLE"@ {
            Some(Code::LightPurple)
        } else if name == "YELLOW"@ {
            Some(Code::Yellow)
        } else if name == "WHITE"@ {
            Some(Code::White)
        } else if name == "MAGIC"@ {
            Some(Code::Magic)
        } else if name == "BOLD"@ {
            Some(Code::Bold)
        } else if name == "STRIKETHROUGH"@ {
            Some(Code::Strikethrough)
        } else if name == "UNDERLINE"@ {
            Some(Code::Underline)
        } else if name == "ITALIC"@ {
            Some(Code::Italic)
        } else if name == "RESET"@ {
            Some(Code::Reset)
        } else {
            None
        }
    }

    /// The code of the given name, where there is one.
    pub fn of(name: &str) -> (r: Option<Code>)
        ensures
            r == Code::spec_of(name@),
            match r {
                Some(code) => code.name() == name@,
                None => forall|code: Code| code.name() != name@,
            },
    {
        if same_text(name, "BLACK") {
            Some(Code::Black)
        } else if same_text(name, "DARK_BLUE") {
            Some(Code::DarkBlue)
        } else if same_text(name, "DARK_GREEN") {
            Some(Code::DarkGreen)
        } else if same_text(name, "DARK_AQUA") {
            Some(Code::DarkAqua)
        } else if same_text(name, "DARK_RED") {
            Some(Code::DarkRed)
        } else if same_text(name, "DARK_PURPLE") {
            Some(Code::DarkPurple)
        } else if same_text(name, "GOLD") {
            Some(Code::Gold)
        } else if same_text(name, "GRAY") {
            Some(Code::Gray)
        } else if same_text(name, "DARK_GRAY") {
            Some(Code::DarkGray)
        } else if same_text(name, "BLUE") {
            Some(Code::Blue)
        } else if same_text(name, "GREEN") {
            Some(Code::Green)
        } else if same_text(name, "AQUA") {
            Some(Code::Aqua)
        } else if same_text(name, "RED") {
            Some(Code::Red)
        } else if same_text(name, "LIGHT_PURPLE") {
            Some(Code::LightPurple)
        } else if same_text(name, "YELLOW") {
            Some(Code::Yellow)
        } else if same_text(name, "WHITE") {
            Some(Code::White)
        } else if same_text(name, "MAGIC") {
            Some(Code::Magic)
        } else if same_text(name, "BOLD") {
            Some(Code::Bold)
        } else if same_text(name, "STRIKETHROUGH") {
            Some(Code::Strikethrough)
        } else if same_text(name, "UNDERLINE") {
            Some(Code::Underline)
        } else if same_text(name, "ITALIC") {
            Some(Code::Italic)
        } else if same_text(name, "RESET") {
            Some(Code::Reset)
        } else {
            None
        }
    }

    /// The code of the given name, where a name is given and names a code.
    pub fn of_option(name: Option<&str>) -> (r: Option<Code>)
        ensures
            r == match name {
                Some(text) => Code::spec_of(text@),
                None => None,
            },
            match r {
                Some(code) => name matches Some(text) && code.name() == text@,
                None => name matches Some(text) ==> forall|code: Code| code.name() != text@,
            },
    {
        match name {
            Some(text) => Code::of(text),
            None => None,
        }
    }

    /// The two characters that switch text to this code.
    pub fn get_code(&self) -> (r: &'static str)
        ensures
            r@ == self.spec_get_code(),
    {
        match self {
            Code::Black => "§0",
            Code::DarkBlue => "§1",
            Code::DarkGreen => "§2",
            Code::DarkAqua => "§3",
            Code::DarkRed => "§4",
            Code::DarkPurple => "§5",
            Code::Gold => "§6",
            Code::Gray => "§7",
            Code::DarkGray => "§8",
            Code::Blue => "§9",
            Code::Green => "§a",
            Code::Aqua => "§b",
            Code::Red => "§c",
            Code::LightPurple => "§d",
            Code::Yellow => "§e",
            Code::White => "§f",
            Code::Bold => "§l",
            Code::Strikethrough => "§m",
            Code::Underline => "§n",
            Code::Italic => "§o",
            Code::Reset => "§r",
            Code::Magic => "§k",
        }
    }
}

} // verus!
