use vstd::prelude::*;

verus! {

/// Virtual keycode of the right Option key.
pub const KEYCODE_RIGHT_OPTION: i64 = 61;
/// Virtual keycode of the left Option key.
pub const KEYCODE_LEFT_OPTION: i64 = 58;
/// Virtual keycode of the right Command key.
pub const KEYCODE_RIGHT_CMD: i64 = 54;
/// Virtual keycode of the left Command key.
pub const KEYCODE_LEFT_CMD: i64 = 55;
/// Virtual keycode of the right Control key.
pub const KEYCODE_RIGHT_CTRL: i64 = 62;
/// Virtual keycode of the left Control key.
pub const KEYCODE_LEFT_CTRL: i64 = 59;
/// Virtual keycode of the right Shift key.
pub const KEYCODE_RIGHT_SHIFT: i64 = 60;
/// Virtual keycode of the left Shift key.
pub const KEYCODE_LEFT_SHIFT: i64 = 56;
/// Virtual keycode of the Escape key.
pub const KEYCODE_ESC: i64 = 53;

/// Supported native shortcut triggers (single modifier keys).
#[derive(Debug, Clone, Copy, PartialEq, Eq, Structural)]
pub enum NativeShortcut {
    RightOption,
    LeftOption,
    RightCmd,
    LeftCmd,
    RightCtrl,
    LeftCtrl,
    RightShift,
    LeftShift,
}

/// The keycode that a shortcut listens for.
pub open spec fn spec_keycode(s: NativeShortcut) -> i64 {
    match s {
        NativeShortcut::RightOption => KEYCODE_RIGHT_OPTION,
        NativeShortcut::LeftOption => KEYCODE_LEFT_OPTION,
        NativeShortcut::RightCmd => KEYCODE_RIGHT_CMD,
        NativeShortcut::LeftCmd => KEYCODE_LEFT_CMD,
        NativeShortcut::RightCtrl => KEYCODE_RIGHT_CTRL,
        NativeShortcut::LeftCtrl => KEYCODE_LEFT_CTRL,
        NativeShortcut::RightShift => KEYCODE_RIGHT_SHIFT,
        NativeShortcut::LeftShift => KEYCODE_LEFT_SHIFT,
    }
}

impl NativeShortcut {
    /// The virtual keycode of this shortcut's key.
    pub fn keycode(&self) -> (k: i64)
        ensures
            k == spec_keycode(*self),
    {
        match self {
            NativeShortcut::RightOption => KEYCODE_RIGHT_OPTION,
            NativeShortcut::LeftOption => KEYCODE_LEFT_OPTION,
            NativeShortcut::RightCmd => KEYCODE_RIGHT_CMD,
            NativeShortcut::LeftCmd => KEYCODE_LEFT_CMD,
            NativeShortcut::RightCtrl => KEYCODE_RIGHT_CTRL,
            NativeShortcut::LeftCtrl => KEYCODE_LEFT_CTRL,
            NativeShortcut::RightShift => KEYCODE_RIGHT_SHIFT,
            NativeShortcut::LeftShift => KEYCODE_LEFT_SHIFT,
        }
    }
}


/// Bit of the CoreGraphics event flags set while an Option (Alternate) key is down.
pub const EVENT_FLAG_ALTERNATE: u64 = 0x0008_0000;
/// Bit of the CoreGraphics event flags set while a Command key is down.
pub const EVENT_FLAG_COMMAND: u64 = 0x0010_0000;
/// Bit of the CoreGraphics event flags set while a Control key is down.
pub const EVENT_FLAG_CONTROL: u64 = 0x0004_0000;
/// Bit of the CoreGraphics event flags set while a Shift key is down.
pub const EVENT_FLAG_SHIFT: u64 = 0x0002_0000;

/// Whether every bit of `mask` is set in `flags`.
pub open spec fn flags_contain(flags: u64, mask: u64) -> bool {
    flags & mask == mask
}

/// The event-flag bit that tells whether a shortcut's modifier is down.
pub open spec fn spec_modifier_flag(s: NativeShortcut) -> u64 {
    match s {
        NativeShortcut::RightOption | NativeShortcut::LeftOption => EVENT_FLAG_ALTERNATE,
        NativeShortcut::RightCmd | NativeShortcut::LeftCmd => EVENT_FLAG_COMMAND,
        NativeShortcut::RightCtrl | NativeShortcut::LeftCtrl => EVENT_FLAG_CONTROL,
        NativeShortcut::RightShift | NativeShortcut::LeftShift => EVENT_FLAG_SHIFT,
    }
}

/// Whether the event flags `flags` report the modifier of shortcut `s` as down.
pub open spec fn spec_modifier_down(s: NativeShortcut, flags: u64) -> bool {
    flags_contain(flags, spec_modifier_flag(s))
}

/// Whether every bit of `mask` is set in `flags`.
pub fn event_flags_contain(flags: u64, mask: u64) -> (b: bool)
    ensures
        b == flags_contain(flags, mask),
{
    flags & mask == mask
}

impl NativeShortcut {
    /// Check if this shortcut uses the Option key (which requires checking CGEventFlagAlternate)
    pub fn uses_option_flag(&self) -> (b: bool)
        ensures
            b == (*self is RightOption || *self is LeftOption),
    {
        matches!(self, NativeShortcut::RightOption | NativeShortcut::LeftOption)
    }

    /// Check if this shortcut uses the Command key (which requires checking CGEventFlagCommand)
    pub fn uses_command_flag(&self) -> (b: bool)
        ensures
            b == (*self is RightCmd || *self is LeftCmd),
    {
        matches!(self, NativeShortcut::RightCmd | NativeShortcut::LeftCmd)
    }

    /// Check if this shortcut uses the Control key (which requires checking CGEventFlagControl)
    pub fn uses_control_flag(&self) -> (b: bool)
        ensures
            b == (*self is RightCtrl || *self is LeftCtrl),
    {
        matches!(self, NativeShortcut::RightCtrl | NativeShortcut::LeftCtrl)
    }

    /// Check if this shortcut uses the Shift key (which requires checking CGEventFlagShift)
    pub fn uses_shift_flag(&self) -> (b: bool)
        ensures
            b == (*self is RightShift || *self is LeftShift),
    {
        matches!(self, NativeShortcut::RightShift | NativeShortcut::LeftShift)
    }

    /// Whether the event flags report this shortcut's modifier as down: the
    /// Option, Command, Control or Shift bit, after the shortcut's key family.
    pub fn modifier_pressed(&self, flags: u64) -> (b: bool)
        ensures
            b == spec_modifier_down(*self, flags),
            b == (flags & spec_modifier_flag(*self) == spec_modifier_flag(*self)),
    {
        if self.uses_option_flag() {
            event_flags_contain(flags, EVENT_FLAG_ALTERNATE)
        } else if self.uses_command_flag() {
            event_flags_contain(flags, EVENT_FLAG_COMMAND)
        } else if self.uses_control_flag() {
            event_flags_contain(flags, EVENT_FLAG_CONTROL)
        } else if self.uses_shift_flag() {
            event_flags_contain(flags, EVENT_FLAG_SHIFT)
        } else {
            false
        }
    }
}


/// The shortcut that a lower-case shortcut name denotes, if any.
pub open spec fn shortcut_named(name: Seq<char>) -> Option<NativeShortcut> {
    if name == "rightoption"@ || name == "right option"@ || name == "rightalt"@ || name
        == "right alt"@ {
        Some(NativeShortcut::RightOption)
    } else if name == "leftoption"@ || name == "left option"@ || name == "leftalt"@ || name
        == "left alt"@ {
        Some(NativeShortcut::LeftOption)
    } else if name == "rightcmd"@ || name == "right cmd"@ || name == "rightcommand"@ || name
        == "right command"@ {
        Some(NativeShortcut::RightCmd)
    } else if name == "leftcmd"@ || name == "left cmd"@ || name == "leftcommand"@ || name
        == "left command"@ {
        Some(NativeShortcut::LeftCmd)
    } else if name == "rightctrl"@ || name == "right ctrl"@ || name == "rightcontrol"@ || name
        == "right control"@ {
        Some(NativeShortcut::RightCtrl)
    } else if name == "leftctrl"@ || name == "left ctrl"@ || name == "leftcontrol"@ || name
        == "left control"@ {
        Some(NativeShortcut::LeftCtrl)
    } else if name == "rightshift"@ || name == "right shift"@ {
        Some(NativeShortcut::RightShift)
    } else if name == "leftshift"@ || name == "left shift"@ {
        Some(NativeShortcut::LeftShift)
    } else {
        None
    }
}

/// What `str::to_lowercase` gives for a string: its lowercase equivalent
/// under the Unicode `Lowercase` property.
pub uninterp spec fn unicode_lowercase(s: Seq<char>) -> Seq<char>;

/// Whether every character of `s` is ASCII.
pub open spec fn ascii_text(s: Seq<char>) -> bool {
    forall|i: int| 0 <= i < s.len() ==> (#[trigger] s[i] as u32) < 128
}

/// `c` with 'A' to 'Z' mapped to 'a' to 'z', every other character unchanged.
pub open spec fn ascii_lower_char(c: char) -> char {
    if 'A' <= c && c <= 'Z' {
        ((c as u32) + 32) as char
    } else {
        c
    }
}

/// `c` with 'a' to 'z' mapped to 'A' to 'Z', every other character unchanged.
pub open spec fn ascii_upper_char(c: char) -> char {
    if 'a' <= c && c <= 'z' {
        ((c as u32) - 32) as char
    } else {
        c
    }
}

/// `s` with its ASCII letters lower-cased one for one.
pub open spec fn ascii_lowercase(s: Seq<char>) -> Seq<char> {
    s.map_values(|c: char| ascii_lower_char(c))
}

/// `s` with its ASCII letters upper-cased one for one.
pub open spec fn ascii_uppercase(s: Seq<char>) -> Seq<char> {
    s.map_values(|c: char| ascii_upper_char(c))
}

/// Calls `str::to_lowercase`. Claimed: the result is a function of the
/// characters of `s` alone, named `unicode_lowercase`; and on a string made of
/// ASCII characters only it is that string with 'A' to 'Z' mapped to 'a' to
/// 'z' (std documents `to_ascii_lowercase` as mapping exactly these letters,
/// and `to_lowercase` as lower-casing ASCII characters in addition to
/// non-ASCII ones). Nothing is said of the result on other strings.
#[verifier::external_body]
fn to_lowercase(s: &str) -> (lower: String)
    ensures
        lower@ == unicode_lowercase(s@),
        ascii_text(s@) ==> lower@ == ascii_lowercase(s@),
{
    s.to_lowercase()
}

/// Whether `name` is exactly the characters of `literal`.
fn name_is(name: &str, literal: &str) -> (b: bool)
    ensures
        b == (name@ == literal@),
{
    let a = String::from_str(name);
    let b = String::from_str(literal);
    a == b
}

impl NativeShortcut {
    /// The shortcut denoted by an already lower-cased name, such as
    /// `"rightoption"` or `"left shift"`.
    pub fn from_lowercase_name(name: &str) -> (r: Option<NativeShortcut>)
        ensures
            r == shortcut_named(name@),
    {
        if name_is(name, "rightoption") || name_is(name, "right option") || name_is(name, "rightalt")
            || name_is(name, "right alt") {
            Some(NativeShortcut::RightOption)
        } else if name_is(name, "leftoption") || name_is(name, "left option") || name_is(
            name,
            "leftalt",
        ) || name_is(name, "left alt") {
            Some(NativeShortcut::LeftOption)
        } else if name_is(name, "rightcmd") || name_is(name, "right cmd") || name_is(
            name,
            "rightcommand",
        ) || name_is(name, "right command") {
            Some(NativeShortcut::RightCmd)
        } else if name_is(name, "leftcmd") || name_is(name, "left cmd") || name_is(
            name,
            "leftcommand",
        ) || name_is(name, "left command") {
            Some(NativeShortcut::LeftCmd)
        } else if name_is(name, "rightctrl") || name_is(name, "right ctrl") || name_is(
            name,
            "rightcontrol",
        ) || name_is(name, "right control") {
            Some(NativeShortcut::RightCtrl)
        } else if name_is(name, "leftctrl") || name_is(name, "left ctrl") || name_is(
            name,
            "leftcontrol",
        ) || name_is(name, "left control") {
            Some(NativeShortcut::LeftCtrl)
        } else if name_is(name, "rightshift") || name_is(name, "right shift") {
            Some(NativeShortcut::RightShift)
        } else if name_is(name, "leftshift") || name_is(name, "left shift") {
            Some(NativeShortcut::LeftShift)
        } else {
            None
        }
    }

    /// Parse a shortcut name, ignoring case: the name is lower-cased and then
    /// looked up among the accepted spellings of the eight modifier keys.
    pub fn from_string(s: &str) -> (r: Option<Self>)
        ensures
            r == shortcut_named(unicode_lowercase(s@)),
            // an ASCII name is looked up with its letters lower-cased one for one
            ascii_text(s@) ==> r == shortcut_named(ascii_lowercase(s@)),
    {
        let lower = to_lowercase(s);
        Self::from_lowercase_name(lower.as_str())
    }
}

/// Check if the shortcut string is a native shortcut (single modifier key)
pub fn is_native_shortcut(shortcut: &str) -> (b: bool)
    ensures
        b == shortcut_named(unicode_lowercase(shortcut@)) is Some,
        ascii_text(shortcut@) ==> b == shortcut_named(ascii_lowercase(shortcut@)) is Some,
{
    NativeShortcut::from_string(shortcut).is_some()
}


/// Parsing an ASCII name ignores letter case: upper-casing or lower-casing
/// its letters keeps it ASCII and leaves the shortcut it denotes unchanged.
/// With the second clause of `NativeShortcut::from_string`, this gives
/// `from_string(s) == from_string(s.to_ascii_uppercase())` and
/// `from_string(s) == from_string(s.to_ascii_lowercase())` for ASCII `s`.
pub proof fn law_parsing_ignores_ascii_case(s: Seq<char>)
    ensures
        ascii_text(ascii_uppercase(s)) == ascii_text(s),
        ascii_text(ascii_lowercase(s)) == ascii_text(s),
        shortcut_named(ascii_lowercase(ascii_uppercase(s))) == shortcut_named(ascii_lowercase(s)),
        shortcut_named(ascii_lowercase(ascii_lowercase(s))) == shortcut_named(ascii_lowercase(s)),
{
    let up = ascii_uppercase(s);
    let low = ascii_lowercase(s);
    assert forall|i: int| 0 <= i < s.len() implies ascii_lower_char(ascii_upper_char(s[i]))
        == ascii_lower_char(s[i]) && ascii_lower_char(ascii_lower_char(s[i])) == ascii_lower_char(
        s[i],
    ) && ((ascii_upper_char(s[i]) as u32) < 128) == ((s[i] as u32) < 128) && ((ascii_lower_char(
        s[i],
    ) as u32) < 128) == ((s[i] as u32) < 128) by {}
    assert(ascii_lowercase(up) =~= low);
    assert(ascii_lowercase(low) =~= low);
    if ascii_text(s) {
        assert forall|i: int| 0 <= i < up.len() implies (#[trigger] up[i] as u32) < 128 by {
            assert((s[i] as u32) < 128);
        }
        assert forall|i: int| 0 <= i < low.len() implies (#[trigger] low[i] as u32) < 128 by {
            assert((s[i] as u32) < 128);
        }
    }
    if ascii_text(up) {
        assert forall|i: int| 0 <= i < s.len() implies (#[trigger] s[i] as u32) < 128 by {
            assert((up[i] as u32) < 128);
        }
    }
    if ascii_text(low) {
        assert forall|i: int| 0 <= i < s.len() implies (#[trigger] s[i] as u32) < 128 by {
            assert((low[i] as u32) < 128);
        }
    }
}

/// A shortcut's modifier is down exactly when every bit of its family's flag
/// is set, so it reads no other bit of the flags: Caps Lock, Fn or another
/// modifier being down as well changes nothing.
pub proof fn law_modifier_reads_only_its_flag(s: NativeShortcut, flags1: u64, flags2: u64)
    ensures
        spec_modifier_down(s, flags1) == (flags1 & spec_modifier_flag(s) == spec_modifier_flag(s)),
        flags1 & spec_modifier_flag(s) == flags2 & spec_modifier_flag(s) ==> spec_modifier_down(
            s,
            flags1,
        ) == spec_modifier_down(s, flags2),
        spec_modifier_down(s, flags1) ==> spec_modifier_down(s, flags1 | flags2),
{
    let m = spec_modifier_flag(s);
    assert(flags1 & m == m ==> (flags1 | flags2) & m == m) by (bit_vector);
}

/// Each shortcut listens for a key of its own, and none of them for Escape.
pub proof fn law_keycodes_distinct(a: NativeShortcut, b: NativeShortcut)
    ensures
        spec_keycode(a) == spec_keycode(b) ==> a == b,
        spec_keycode(a) != KEYCODE_ESC,
{
}

/// Each shortcut belongs to exactly one modifier family (Option, Command,
/// Control or Shift), whose flag bit tells whether it is down.
pub proof fn law_one_modifier_family(s: NativeShortcut)
    ensures
        (s is RightOption || s is LeftOption) as int + (s is RightCmd || s is LeftCmd) as int + (
        s is RightCtrl || s is LeftCtrl) as int + (s is RightShift || s is LeftShift) as int
            == 1,
        (s is RightOption || s is LeftOption) ==> spec_modifier_flag(s) == EVENT_FLAG_ALTERNATE,
        (s is RightCmd || s is LeftCmd) ==> spec_modifier_flag(s) == EVENT_FLAG_COMMAND,
        (s is RightCtrl || s is LeftCtrl) ==> spec_modifier_flag(s) == EVENT_FLAG_CONTROL,
        (s is RightShift || s is LeftShift) ==> spec_modifier_flag(s) == EVENT_FLAG_SHIFT,
{
}

/// The plain lower-case name of each shortcut, such as `"rightoption"`.
pub open spec fn canonical_name(s: NativeShortcut) -> Seq<char> {
    match s {
        NativeShortcut::RightOption => "rightoption"@,
        NativeShortcut::LeftOption => "leftoption"@,
        NativeShortcut::RightCmd => "rightcmd"@,
        NativeShortcut::LeftCmd => "leftcmd"@,
        NativeShortcut::RightCtrl => "rightctrl"@,
        NativeShortcut::LeftCtrl => "leftctrl"@,
        NativeShortcut::RightShift => "rightshift"@,
        NativeShortcut::LeftShift => "leftshift"@,
    }
}

/// The lengths of the accepted spellings.
proof fn lemma_spelling_lengths()
    ensures
        "rightoption"@.len() == 11,
        "right option"@.len() == 12,
        "rightalt"@.len() == 8,
        "right alt"@.len() == 9,
        "leftoption"@.len() == 10,
        "left option"@.len() == 11,
        "leftalt"@.len() == 7,
        "left alt"@.len() == 8,
        "rightcmd"@.len() == 8,
        "right cmd"@.len() == 9,
        "rightcommand"@.len() == 12,
        "right command"@.len() == 13,
        "leftcmd"@.len() == 7,
        "left cmd"@.len() == 8,
        "leftcommand"@.len() == 11,
        "left command"@.len() == 12,
        "rightctrl"@.len() == 9,
        "right ctrl"@.len() == 10,
        "rightcontrol"@.len() == 12,
        "right control"@.len() == 13,
        "leftctrl"@.len() == 8,
        "left ctrl"@.len() == 9,
        "leftcontrol"@.len() == 11,
        "left control"@.len() == 12,
        "rightshift"@.len() == 10,
        "right shift"@.len() == 11,
        "leftshift"@.len() == 9,
        "left shift"@.len() == 10,
{
    reveal_strlit("rightoption");
    reveal_strlit("right option");
    reveal_strlit("rightalt");
    reveal_strlit("right alt");
    reveal_strlit("leftoption");
    reveal_strlit("left option");
    reveal_strlit("leftalt");
    reveal_strlit("left alt");
    reveal_strlit("rightcmd");
    reveal_strlit("right cmd");
    reveal_strlit("rightcommand");
    reveal_strlit("right command");
    reveal_strlit("leftcmd");
    reveal_strlit("left cmd");
    reveal_strlit("leftcommand");
    reveal_strlit("left command");
    reveal_strlit("rightctrl");
    reveal_strlit("right ctrl");
    reveal_strlit("rightcontrol");
    reveal_strlit("right control");
    reveal_strlit("leftctrl");
    reveal_strlit("left ctrl");
    reveal_strlit("leftcontrol");
    reveal_strlit("left control");
    reveal_strlit("rightshift");
    reveal_strlit("right shift");
    reveal_strlit("leftshift");
    reveal_strlit("left shift");
}

/// Every shortcut can be named: its plain lower-case name denotes it.
pub proof fn law_canonical_name_denotes_shortcut(s: NativeShortcut)
    ensures
        shortcut_named(canonical_name(s)) == Some(s),
{
    // Each plain name differs from every spelling tested before it in the
    // lookup, by its length or by one character.
    lemma_spelling_lengths();
    reveal_strlit("rightalt");
    reveal_strlit("right alt");
    reveal_strlit("leftoption");
    reveal_strlit("leftalt");
    reveal_strlit("left alt");
    reveal_strlit("rightcmd");
    reveal_strlit("right cmd");
    reveal_strlit("leftcmd");
    reveal_strlit("left cmd");
    reveal_strlit("rightctrl");
    reveal_strlit("right ctrl");
    reveal_strlit("leftctrl");
    reveal_strlit("left ctrl");
    reveal_strlit("rightshift");
    reveal_strlit("leftshift");
    match s {
        NativeShortcut::RightOption | NativeShortcut::LeftOption => {},
        NativeShortcut::RightCmd => {
            assert("rightcmd"@[5] != "rightalt"@[5]);
            assert("rightcmd"@[0] != "left alt"@[0]);
        },
        NativeShortcut::LeftCmd => {
            assert("leftcmd"@[4] != "leftalt"@[4]);
        },
        NativeShortcut::RightCtrl => {
            assert("rightctrl"@[5] != "right alt"@[5]);
            assert("rightctrl"@[5] != "right cmd"@[5]);
        },
        NativeShortcut::LeftCtrl => {
            assert("leftctrl"@[0] != "rightalt"@[0]);
            assert("leftctrl"@[4] != "left alt"@[4]);
            assert("leftctrl"@[0] != "rightcmd"@[0]);
            assert("leftctrl"@[4] != "left cmd"@[4]);
        },
        NativeShortcut::RightShift => {
            assert("rightshift"@[0] != "leftoption"@[0]);
            assert("rightshift"@[5] != "right ctrl"@[5]);
        },
        NativeShortcut::LeftShift => {
            assert("leftshift"@[0] != "right alt"@[0]);
            assert("leftshift"@[0] != "right cmd"@[0]);
            assert("leftshift"@[0] != "rightctrl"@[0]);
            assert("leftshift"@[4] != "left ctrl"@[4]);
        },
    }
}

} // verus!
