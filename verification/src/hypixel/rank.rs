//! The rank that a player holds at the stats service, and how it is shown.

use crate::hypixel::colors::Code;
use crate::text::same_text;
use vstd::prelude::*;
use vstd::string::StringExecFns;

verus! {

/// A player's rank.
#[derive(Clone, Copy, Debug, PartialEq, Eq, Structural)]
pub enum Rank {
    Normal,
    Vip,
    VipPlus,
    Mvp,
    MvpPlus,
    Superstar,
    Admin,
    GameMaster,
    Moderator,
    Helper,
    JrHelper,
    Youtuber,
}

/// The code named by `name`, or `fallback` where no name is given or the
/// name is that of no code.
pub open spec fn code_or(name: Option<Seq<char>>, fallback: Code) -> Code {
    match name {
        Some(text) => match Code::spec_of(text) {
            Some(code) => code,
            None => fallback,
        },
        None => fallback,
    }
}

fn pick_code(name: Option<&str>, fallback: Code) -> (r: Code)
    ensures
        r == code_or(
            match name {
                Some(text) => Some(text@),
                None => None,
            },
            fallback,
        ),
{
    match Code::of_option(name) {
        Some(code) => code,
        None => fallback,
    }
}

impl Rank {
    /// The number by which ranks are ordered: a higher rank has the larger
    /// number.
    pub open spec fn spec_weight(self) -> u8 {
        match self {
            Rank::Normal => 1,
            Rank::Vip => 2,
            Rank::VipPlus => 3,
            Rank::Mvp => 4,
            Rank::MvpPlus => 5,
            Rank::Superstar => 6,
            Rank::Admin => 100,
            Rank::GameMaster => 95,
            Rank::Moderator => 90,
            Rank::Helper => 80,
            Rank::JrHelper => 70,
            Rank::Youtuber => 60,
        }
    }

    #[verifier::when_used_as_spec(spec_weight)]
    pub fn weight(self) -> (r: u8)
        ensures
            r == self.spec_weight(),
    {
        match self {
            Rank::Normal => 1,
            Rank::Vip => 2,
            Rank::VipPlus => 3,
            Rank::Mvp => 4,
            Rank::MvpPlus => 5,
            Rank::Superstar => 6,
            Rank::Admin => 100,
            Rank::GameMaster => 95,
            Rank::Moderator => 90,
            Rank::Helper => 80,
            Rank::JrHelper => 70,
            Rank::Youtuber => 60,
        }
    }

    /// The rank of the given name. A name that is no rank's stands for
    /// `Rank::Normal`, as `NONE` does.
    pub open spec fn spec_of(name: Seq<char>) -> Rank {
        if name == "VIP"@ {
            Rank::Vip
        } else if name == "VIP_PLUS"@ {
            Rank::VipPlus
        } else if name == "MVP"@ {
            Rank::Mvp
        } else if name == "MVP_PLUS"@ {
            Rank::MvpPlus
        } else if name == "SUPERSTAR"@ {
            Rank::Superstar
        } else if name == "ADMIN"@ {
            Rank::Admin
        } else if name == "GAME_MASTER"@ {
            Rank::GameMaster
        } else if name == "MODERATOR"@ {
            Rank::Moderator
        } else if name == "HELPER"@ {
            Rank::Helper
        } else if name == "JR_HELPER"@ {
            Rank::JrHelper
        } else if name == "YOUTUBER"@ {
            Rank::Youtuber
        } else {
            Rank::Normal
        }
    }

    pub fn of(name: &str) -> (r: Rank)
        ensures
            r == Rank::spec_of(name@),
    {
        if same_text(name, "VIP") {
            Rank::Vip
        } else if same_text(name, "VIP_PLUS") {
            Rank::VipPlus
        } else if same_text(name, "MVP") {
            Rank::Mvp
        } else if same_text(name, "MVP_PLUS") {
            Rank::MvpPlus
        } else if same_text(name, "SUPERSTAR") {
            Rank::Superstar
        } else if same_text(name, "ADMIN") {
            Rank::Admin
        } else if same_text(name, "GAME_MASTER") {
            Rank::GameMaster
        } else if same_text(name, "MODERATOR") {
            Rank::Moderator
        } else if same_text(name, "HELPER") {
            Rank::Helper
        } else if same_text(name, "JR_HELPER") {
            Rank::JrHelper
        } else if same_text(name, "YOUTUBER") {
            Rank::Youtuber
        } else {
            Rank::Normal
        }
    }

    /// The name of this rank.
    pub open spec fn spec_to_string(self) -> Seq<char> {
        match self {
            Rank::Normal => "NORMAL"@,
            Rank::Vip => "VIP"@,
            Rank::VipPlus => "VIP_PLUS"@,
            Rank::Mvp => "MVP"@,
            Rank::MvpPlus => "MVP_PLUS"@,
            Rank::Superstar => "SUPERSTAR"@,
            Rank::Admin => "ADMIN"@,
            Rank::GameMaster => "GAME_MASTER"@,
            Rank::Moderator => "MODERATOR"@,
            Rank::Helper => "HELPER"@,
            Rank::JrHelper => "JR_HELPER"@,
            Rank::Youtuber => "YOUTUBER"@,
        }
    }

    pub fn to_string(&self) -> (r: String)
        ensures
            r@ == self.spec_to_string(),
    {
        let name = match self {
            Rank::Normal => "NORMAL",
            Rank::Vip => "VIP",
            Rank::VipPlus => "VIP_PLUS",
            Rank::Mvp => "MVP",
            Rank::MvpPlus => "MVP_PLUS",
            Rank::Superstar => "SUPERSTAR",
            Rank::Admin => "ADMIN",
            Rank::GameMaster => "GAME_MASTER",
            Rank::Moderator => "MODERATOR",
            Rank::Helper => "HELPER",
            Rank::JrHelper => "JR_HELPER",
            Rank::Youtuber => "YOUTUBER",
        };
        name.to_owned()
    }

    /// The prefix shown before the name of a player of this rank. The plus
    /// signs of the two highest bought ranks take the colour that the player
    /// chose, red where none was chosen; the brackets of the highest take a
    /// colour of their own, gold where none was chosen.
    pub open spec fn spec_to_string_formatted(
        self,
        plus_color: Option<Seq<char>>,
        superstar_color: Option<Seq<char>>,
    ) -> Seq<char> {
        match self {
            Rank::Normal => "§7"@,
            Rank::Vip => "§a[VIP]"@,
            Rank::VipPlus => "§a[VIP§6+§a]"@,
            Rank::Mvp => "§b[MVP]"@,
            Rank::MvpPlus => "§b[MVP"@ + code_or(plus_color, Code::Red).spec_get_code() + "+§b]"@,
            Rank::Superstar => {
                let plus = code_or(plus_color, Code::Red).spec_get_code();
                let color = code_or(superstar_color, Code::Gold).spec_get_code();
                color + "[MVP"@ + plus + "++"@ + color + "]"@
            },
            Rank::Admin => "§c[ADMIN]"@,
            Rank::GameMaster => "§2[GM]"@,
            Rank::Moderator => "§2[MOD]"@,
            Rank::Helper => "§9[HELPER]"@,
            Rank::JrHelper => "§9[JR HELPER]"@,
            Rank::Youtuber => "§c[§fYOUTUBE§c]"@,
        }
    }

    pub fn to_string_formatted(&self, plus_color: Option<&str>, superstar_color: Option<&str>) -> (r:
        String)
        ensures
            r@ == self.spec_to_string_formatted(
                match plus_color {
                    Some(text) => Some(text@),
                    None => None,
                },
                match superstar_color {
                    Some(text) => Some(text@),
                    None => None,
                },
            ),
    {
        match self {
            Rank::Normal => "§7".to_owned(),
            Rank::Vip => "§a[VIP]".to_owned(),
            Rank::VipPlus => "§a[VIP§6+§a]".to_owned(),
            Rank::Mvp => "§b[MVP]".to_owned(),
            Rank::MvpPlus => {
                let plus = pick_code(plus_color, Code::Red);
                "§b[MVP".to_owned().concat(plus.get_code()).concat("+§b]")
            },
            Rank::Superstar => {
                let plus = pick_code(plus_color, Code::Red);
                let color = pick_code(superstar_color, Code::Gold);
                color.get_code().to_owned().concat("[MVP").concat(plus.get_code()).concat(
                    "++",
                ).concat(color.get_code()).concat("]")
            },
            Rank::Admin => "§c[ADMIN]".to_owned(),
            Rank::GameMaster => "§2[GM]".to_owned(),
            Rank::Moderator => "§2[MOD]".to_owned(),
            Rank::Helper => "§9[HELPER]".to_owned(),
            Rank::JrHelper => "§9[JR HELPER]".to_owned(),
            Rank::Youtuber => "§c[§fYOUTUBE§c]".to_owned(),
        }
    }

    /// The rank of `name` where one is given, `Rank::Normal` where none is.
    pub open spec fn of_listed(name: Option<Seq<char>>) -> Rank {
        match name {
            Some(text) => Rank::spec_of(text),
            None => Rank::Normal,
        }
    }

    /// The higher of two ranks; the first where they weigh the same.
    pub open spec fn higher(self, other: Rank) -> Rank {
        if other.spec_weight() > self.spec_weight() {
            other
        } else {
            self
        }
    }

    /// The rank that a player's record amounts to. A staff rank decides
    /// where the record names one; else the highest of the three bought
    /// ranks does, the monthly one first.
    pub open spec fn spec_of_record(
        staff: Option<Seq<char>>,
        monthly: Option<Seq<char>>,
        newer: Option<Seq<char>>,
        older: Option<Seq<char>>,
    ) -> Rank {
        if staff is None || staff == Some("NORMAL"@) {
            Rank::Normal.higher(Rank::of_listed(monthly)).higher(Rank::of_listed(newer)).higher(
                Rank::of_listed(older),
            )
        } else {
            Rank::spec_of(staff->0)
        }
    }

    /// This rank, or the listed one where that is higher.
    fn raised_by(self, listed: Option<&str>) -> (r: Rank)
        ensures
            r == self.higher(
                Rank::of_listed(
                    match listed {
                        Some(text) => Some(text@),
                        None => None,
                    },
                ),
            ),
    {
        match listed {
            Some(text) => {
                let rank = Rank::of(text);
                if rank.weight() > self.weight() {
                    rank
                } else {
                    self
                }
            },
            None => self,
        }
    }

    /// The rank that a player's record amounts to, from what it holds under
    /// `rank`, `monthlyPackageRank`, `newPackageRank` and `packageRank`.
    pub fn of_record(
        staff: Option<&str>,
        monthly: Option<&str>,
        newer: Option<&str>,
        older: Option<&str>,
    ) -> (r: Rank)
        ensures
            r == Rank::spec_of_record(
                match staff {
                    Some(text) => Some(text@),
                    None => None,
                },
                match monthly {
                    Some(text) => Some(text@),
                    None => None,
                },
                match newer {
                    Some(text) => Some(text@),
                    None => None,
                },
                match older {
                    Some(text) => Some(text@),
                    None => None,
                },
            ),
    {
        let staff_name = match staff {
            Some(text) => text,
            None => "NORMAL",
        };
        if !same_text(staff_name, "NORMAL") {
            return Rank::of(staff_name);
        }
        let highest = Rank::Normal.raised_by(monthly).raised_by(newer).raised_by(older);
        highest
    }
}

} // verus!
