//! What the desktop tray shows for a status: the icon, the tool tip and the menu.
//!
//! Nothing here draws anything. The functions say which icon and which texts belong to
//! a status; a tray service on the desktop shows them and carries out the action of the
//! menu entry that the user picks.

use crate::state::CloudFlightStatus;
use vstd::prelude::*;
use vstd::string::StringExecFns;

verus! {

/// Name under which the tray icon registers.
pub const TRAY_ID: &'static str = "hyperx";

/// Title of the tool tip and heading of the menu.
pub const TITLE: &'static str = "HyperX Cloud Flight";

pub const HEADPHONES_MUTED: &'static str = "audio-headphones-black";

pub const HEADPHONES_BATTERY_CHARGING: &'static str = "battery-060-charging";

pub const HEADPHONES_BATTERY_FULL: &'static str = "audio-headset-black";

pub const HEADPHONES_BATTERY_GOOD: &'static str = "audio-headset-black";

pub const HEADPHONES_BATTERY_MEDIUM: &'static str = "audio-headset-black";

pub const HEADPHONES_BATTERY_LOW: &'static str = "audio-headset-black";

pub const HEADPHONES_BATTERY_CAUTION: &'static str = "battery-010";

/// Icon for a level above 100. Unlike the others this name carries its extension
/// already, and the usual ending is still put behind it.
pub const HEADPHONES_BATTERY_EMPTY: &'static str = "battery-empty.svg";

/// Number of entries in the menu.
pub const MENU_LEN: usize = 5;

/// What the tray service does when a menu entry is picked.
#[derive(Clone, Copy, Debug, PartialEq, Eq, Structural)]
pub enum MenuAction {
    /// The entry only shows a text.
    Nothing,
    /// Ask the headset for a battery notification.
    RefreshBattery,
    /// End the program.
    Quit,
}

/// One entry of the menu.
#[derive(Debug)]
pub struct MenuItem {
    pub label: String,
    pub action: MenuAction,
}

/// The tool tip of the tray icon.
#[derive(Debug)]
pub struct ToolTip {
    pub title: String,
    pub description: String,
    pub icon_name: String,
}

/// The tray icon of one headset, as of the status it was made for.
#[derive(Debug)]
pub struct Tray {
    pub status: CloudFlightStatus,
}

/// The decimal digit for `d`, which is below ten.
pub open spec fn decimal_digit(d: nat) -> char
    recommends
        d < 10,
{
    if d == 0 {
        '0'
    } else if d == 1 {
        '1'
    } else if d == 2 {
        '2'
    } else if d == 3 {
        '3'
    } else if d == 4 {
        '4'
    } else if d == 5 {
        '5'
    } else if d == 6 {
        '6'
    } else if d == 7 {
        '7'
    } else if d == 8 {
        '8'
    } else {
        '9'
    }
}

/// The value of the decimal digit `c`; zero for any other character.
pub open spec fn digit_value(c: char) -> nat {
    if c == '1' {
        1
    } else if c == '2' {
        2
    } else if c == '3' {
        3
    } else if c == '4' {
        4
    } else if c == '5' {
        5
    } else if c == '6' {
        6
    } else if c == '7' {
        7
    } else if c == '8' {
        8
    } else if c == '9' {
        9
    } else {
        0
    }
}

/// The decimal numeral of `n`, without sign or padding.
pub open spec fn decimal(n: nat) -> Seq<char>
    decreases n,
{
    if n < 10 {
        seq![decimal_digit(n)]
    } else {
        decimal(n / 10).push(decimal_digit(n % 10))
    }
}

/// The number that a string of decimal digits denotes.
pub open spec fn decimal_value(digits: Seq<char>) -> nat
    decreases digits.len(),
{
    if digits.len() == 0 {
        0
    } else {
        decimal_value(digits.drop_last()) * 10 + digit_value(digits.last())
    }
}

/// Base name of the icon that shows the battery level `level`.
pub open spec fn battery_icon(level: usize) -> Seq<char> {
    if level < 20 {
        HEADPHONES_BATTERY_CAUTION@
    } else if level < 40 {
        HEADPHONES_BATTERY_LOW@
    } else if level < 60 {
        HEADPHONES_BATTERY_MEDIUM@
    } else if level < 90 {
        HEADPHONES_BATTERY_GOOD@
    } else if level <= 100 {
        HEADPHONES_BATTERY_FULL@
    } else {
        HEADPHONES_BATTERY_EMPTY@
    }
}

/// Base name of the icon for `status`: a muted microphone hides everything else, and
/// charging hides the battery level.
pub open spec fn icon_stem(status: CloudFlightStatus) -> Seq<char> {
    if status.muted {
        HEADPHONES_MUTED@
    } else if status.charging {
        HEADPHONES_BATTERY_CHARGING@
    } else {
        battery_icon(status.battery)
    }
}

/// Whether the icon for `status` is the surround variant. The charging icon has none.
pub open spec fn shows_surround(status: CloudFlightStatus) -> bool {
    status.surround && (status.muted || !status.charging)
}

/// File name of the icon for `status`.
pub open spec fn icon_name_of(status: CloudFlightStatus) -> Seq<char> {
    icon_stem(status) + (if shows_surround(status) {
        "-surround.svg"@
    } else {
        ".svg"@
    })
}

/// Text of the tool tip for `status`.
pub open spec fn tool_tip_description(status: CloudFlightStatus) -> Seq<char> {
    if status.charging {
        "Charging battery"@
    } else {
        "Battery: "@ + decimal(status.battery as nat) + "%"@
    }
}

/// Text of the menu entry at `index` for `status`.
pub open spec fn menu_label(status: CloudFlightStatus, index: int) -> Seq<char>
    recommends
        0 <= index < MENU_LEN,
{
    if index == 0 {
        TITLE@
    } else if index == 1 {
        "Muted: "@ + (if status.muted {
            "Yes"@
        } else {
            "No"@
        })
    } else if index == 2 {
        "Surround 7.1: "@ + (if status.surround {
            "On"@
        } else {
            "Off"@
        })
    } else if index == 3 {
        if status.charging {
            "Battery charging"@
        } else {
            "Battery level: "@ + decimal(status.battery as nat)
        }
    } else {
        "Quit"@
    }
}

/// Action of the menu entry at `index`.
pub open spec fn menu_action(index: int) -> MenuAction
    recommends
        0 <= index < MENU_LEN,
{
    if index == 3 {
        MenuAction::RefreshBattery
    } else if index == 4 {
        MenuAction::Quit
    } else {
        MenuAction::Nothing
    }
}

fn digit_str(d: usize) -> (s: &'static str)
    requires
        d < 10,
    ensures
        s@ == seq![decimal_digit(d as nat)],
{
    proof {
        reveal_strlit("0");
        reveal_strlit("1");
        reveal_strlit("2");
        reveal_strlit("3");
        reveal_strlit("4");
        reveal_strlit("5");
        reveal_strlit("6");
        reveal_strlit("7");
        reveal_strlit("8");
        reveal_strlit("9");
    }
    let s: &'static str = match d {
        0 => "0",
        1 => "1",
        2 => "2",
        3 => "3",
        4 => "4",
        5 => "5",
        6 => "6",
        7 => "7",
        8 => "8",
        _ => "9",
    };
    assert(s@ =~= seq![decimal_digit(d as nat)]);
    s
}

/// Writes `n` as a decimal numeral.
pub fn decimal_string(n: usize) -> (s: String)
    ensures
        s@ == decimal(n as nat),
    decreases n,
{
    if n < 10 {
        String::from_str(digit_str(n))
    } else {
        let mut s = decimal_string(n / 10);
        s.append(digit_str(n % 10));
        s
    }
}

impl Tray {
    /// Name under which the tray icon registers.
    pub fn id(&self) -> (id: String)
        ensures
            id@ == TRAY_ID@,
    {
        String::from_str(TRAY_ID)
    }

    /// File name of the icon to show.
    pub fn icon_name(&self) -> (name: String)
        ensures
            name@ == icon_name_of(self.status),
    {
        if self.status.muted {
            if self.status.surround {
                String::from_str(HEADPHONES_MUTED).concat("-surround.svg")
            } else {
                String::from_str(HEADPHONES_MUTED).concat(".svg")
            }
        } else if self.status.charging {
            String::from_str(HEADPHONES_BATTERY_CHARGING).concat(".svg")
        } else {
            let level: usize = self.status.battery;
            let mut name = if level < 20 {
                String::from_str(HEADPHONES_BATTERY_CAUTION)
            } else if level < 40 {
                String::from_str(HEADPHONES_BATTERY_LOW)
            } else if level < 60 {
                String::from_str(HEADPHONES_BATTERY_MEDIUM)
            } else if level < 90 {
                String::from_str(HEADPHONES_BATTERY_GOOD)
            } else if level <= 100 {
                String::from_str(HEADPHONES_BATTERY_FULL)
            } else {
                String::from_str(HEADPHONES_BATTERY_EMPTY)
            };
            if self.status.surround {
                name.append("-surround");
            }
            name.append(".svg");
            proof {
                reveal_strlit("-surround");
                reveal_strlit(".svg");
                reveal_strlit("-surround.svg");
                assert("-surround"@ + ".svg"@ =~= "-surround.svg"@);
                assert(battery_icon(level) + "-surround"@ + ".svg"@ =~= battery_icon(level) + (
                "-surround"@ + ".svg"@));
            }
            name
        }
    }

    /// The tool tip to show.
    pub fn tool_tip(&self) -> (tip: ToolTip)
        ensures
            tip.title@ == TITLE@,
            tip.description@ == tool_tip_description(self.status),
            tip.icon_name@ == Seq::<char>::empty(),
    {
        let description = if self.status.charging {
            String::from_str("Charging battery")
        } else {
            let mut text = String::from_str("Battery: ");
            text.append(decimal_string(self.status.battery).as_str());
            text.append("%");
            text
        };
        ToolTip { title: String::from_str(TITLE), description, icon_name: String::new() }
    }

    /// The menu to show, top entry first.
    pub fn menu(&self) -> (items: Vec<MenuItem>)
        ensures
            items@.len() == MENU_LEN,
            forall|i: int|
                0 <= i < MENU_LEN ==> (#[trigger] items@[i]).label@ == menu_label(self.status, i)
                    && items@[i].action == menu_action(i),
    {
        let muted_text: &str = if self.status.muted {
            "Yes"
        } else {
            "No"
        };
        let surround_text: &str = if self.status.surround {
            "On"
        } else {
            "Off"
        };
        let battery_text = if self.status.charging {
            String::from_str("Battery charging")
        } else {
            let mut text = String::from_str("Battery level: ");
            text.append(decimal_string(self.status.battery).as_str());
            text
        };
        let mut items: Vec<MenuItem> = Vec::new();
        items.push(MenuItem { label: String::from_str(TITLE), action: MenuAction::Nothing });
        items.push(
            MenuItem {
                label: String::from_str("Muted: ").concat(muted_text),
                action: MenuAction::Nothing,
            },
        );
        items.push(
            MenuItem {
                label: String::from_str("Surround 7.1: ").concat(surround_text),
                action: MenuAction::Nothing,
            },
        );
        items.push(MenuItem { label: battery_text, action: MenuAction::RefreshBattery });
        items.push(MenuItem { label: String::from_str("Quit"), action: MenuAction::Quit });
        items
    }
}

/// The decimal numeral of a number denotes that number.
pub proof fn lemma_decimal_denotes(n: nat)
    ensures
        decimal_value(decimal(n)) == n,
    decreases n,
{
    if n < 10 {
        let s = decimal(n);
        assert(s.drop_last().len() == 0);
        assert(s.last() == decimal_digit(n));
        assert(decimal_value(s.drop_last()) == 0);
    } else {
        lemma_decimal_denotes(n / 10);
        let s = decimal(n);
        assert(s.drop_last() =~= decimal(n / 10));
        assert(s.last() == decimal_digit(n % 10));
    }
}

/// The decimal numeral of a number has no leading zero, except that zero is written
/// as one.
pub proof fn lemma_decimal_no_leading_zero(n: nat)
    ensures
        decimal(n).len() >= 1,
        n > 0 ==> decimal(n)[0] != '0',
        n == 0 ==> decimal(n) == seq!['0'],
    decreases n,
{
    if n >= 10 {
        lemma_decimal_no_leading_zero(n / 10);
    }
}

/// Every icon name ends in `.svg`.
pub proof fn lemma_icon_name_is_svg(status: CloudFlightStatus)
    ensures
        icon_name_of(status).len() >= 4,
        icon_name_of(status).subrange(icon_name_of(status).len() - 4, icon_name_of(status).len() as int)
            == ".svg"@,
{
    reveal_strlit(".svg");
    reveal_strlit("-surround.svg");
    let name = icon_name_of(status);
    assert(name.subrange(name.len() - 4, name.len() as int) =~= ".svg"@);
}

} // verus!
