//! Hotkey logic: the modifier mask and key code handed to the system, which
//! bindings are registered, parsing a captured keystroke and display text.

use vstd::prelude::*;
use vstd::string::StringSliceAdditionalSpecFns;

use crate::settings::{binding_is_valid, HotkeyBinding, Modifier, Settings, VirtualKey};
use crate::text::{append_decimal, ascii_upper_char, char_uppercase, decimal, to_uppercase_string};

verus! {

/// Identifier of the icon toggle hotkey.
pub const HOTKEY_ID: i32 = 1;
/// Identifier of the taskbar toggle hotkey.
pub const TASKBAR_HOTKEY_ID: i32 = 2;

/// What a pressed hotkey asks for.
#[derive(Debug, Clone, Copy, PartialEq, Eq, Structural)]
pub enum HotkeyCommand {
    ToggleIcons,
    ToggleTaskbar,
}

/// The command of a `WM_HOTKEY` message: the taskbar hotkey toggles the
/// taskbar, any other registered hotkey toggles the icons.
pub fn hotkey_command(hotkey_id: i32) -> (r: HotkeyCommand)
    ensures
        r == if hotkey_id == TASKBAR_HOTKEY_ID {
            HotkeyCommand::ToggleTaskbar
        } else {
            HotkeyCommand::ToggleIcons
        },
{
    if hotkey_id == TASKBAR_HOTKEY_ID {
        HotkeyCommand::ToggleTaskbar
    } else {
        HotkeyCommand::ToggleIcons
    }
}

/// `RegisterHotKey` modifier: Alt.
pub const MOD_ALT: u32 = 0x0001;
/// `RegisterHotKey` modifier: Ctrl.
pub const MOD_CONTROL: u32 = 0x0002;
/// `RegisterHotKey` modifier: Shift.
pub const MOD_SHIFT: u32 = 0x0004;
/// `RegisterHotKey` modifier: Win.
pub const MOD_WIN: u32 = 0x0008;
/// `RegisterHotKey` modifier: no auto-repeat.
pub const MOD_NOREPEAT: u32 = 0x4000;

/// The mask bit of one modifier.
pub open spec fn modifier_bit(m: Modifier) -> u32 {
    match m {
        Modifier::Ctrl => MOD_CONTROL,
        Modifier::Alt => MOD_ALT,
        Modifier::Shift => MOD_SHIFT,
        Modifier::Win => MOD_WIN,
    }
}

/// The modifier mask of a modifier list: no-repeat plus each modifier's bit.
pub open spec fn mods_spec(s: Seq<Modifier>) -> u32
    decreases s.len(),
{
    if s.len() == 0 {
        MOD_NOREPEAT
    } else {
        mods_spec(s.drop_last()) | modifier_bit(s.last())
    }
}

/// Maps modifier enums to the Win32 `HOT_KEY_MODIFIERS` bits.
pub fn make_mods(binding: &HotkeyBinding) -> (r: u32)
    ensures
        r == mods_spec(binding.modifiers@),
        r & 0x4000u32 == 0x4000u32,
        (r & 0x0001u32 != 0) == binding.modifiers@.contains(Modifier::Alt),
        (r & 0x0002u32 != 0) == binding.modifiers@.contains(Modifier::Ctrl),
        (r & 0x0004u32 != 0) == binding.modifiers@.contains(Modifier::Shift),
        (r & 0x0008u32 != 0) == binding.modifiers@.contains(Modifier::Win),
{
    proof {
        lemma_make_mods_win32_flags(binding.modifiers@);
    }
    let mut mods: u32 = MOD_NOREPEAT;
    let mut i: usize = 0;
    while i < binding.modifiers.len()
        invariant
            i <= binding.modifiers.len(),
            mods == mods_spec(binding.modifiers@.take(i as int)),
        decreases binding.modifiers.len() - i,
    {
        let bit: u32 = match binding.modifiers[i] {
            Modifier::Ctrl => MOD_CONTROL,
            Modifier::Alt => MOD_ALT,
            Modifier::Shift => MOD_SHIFT,
            Modifier::Win => MOD_WIN,
        };
        assert(binding.modifiers@.take(i + 1).drop_last() =~= binding.modifiers@.take(i as int));
        mods = mods | bit;
        i = i + 1;
    }
    assert(binding.modifiers@.take(i as int) =~= binding.modifiers@);
    mods
}

proof fn lemma_or_single_bit(x: u32, a: u32, b: u32)
    by (bit_vector)
    requires
        a == 1 || a == 2 || a == 4 || a == 8,
        b == 1 || b == 2 || b == 4 || b == 8,
    ensures
        ((x | a) & b != 0) == ((x & b != 0) || a == b),
        (x | a) & 0x4000 == x & 0x4000,
        (x & !0x400fu32 == 0) ==> ((x | a) & !0x400fu32 == 0),
{
}

/// The mask always carries no-repeat, carries a modifier's bit exactly when
/// the binding lists that modifier, and carries no other bit.
pub proof fn lemma_mods_spec(s: Seq<Modifier>)
    ensures
        mods_spec(s) & MOD_NOREPEAT == MOD_NOREPEAT,
        forall|m: Modifier| (#[trigger] (mods_spec(s) & modifier_bit(m)) != 0) == s.contains(m),
        mods_spec(s) & !0x400fu32 == 0,
    decreases s.len(),
{
    if s.len() == 0 {
        assert(0x4000u32 & 0x4000u32 == 0x4000u32) by (bit_vector);
        assert(0x4000u32 & !0x400fu32 == 0) by (bit_vector);
        assert forall|m: Modifier| (#[trigger] (mods_spec(s) & modifier_bit(m)) != 0) == s.contains(m) by {
            let b = modifier_bit(m);
            assert(b == 1 || b == 2 || b == 4 || b == 8);
            assert(b == 1 || b == 2 || b == 4 || b == 8 ==> 0x4000u32 & b == 0) by (bit_vector);
        }
    } else {
        let p = s.drop_last();
        lemma_mods_spec(p);
        let a = modifier_bit(s.last());
        lemma_or_single_bit(mods_spec(p), a, 1);
        assert forall|m: Modifier| (#[trigger] (mods_spec(s) & modifier_bit(m)) != 0) == s.contains(m) by {
            let b = modifier_bit(m);
            lemma_or_single_bit(mods_spec(p), a, b);
            assert(s =~= p.push(s.last()));
            if p.contains(m) {
                let j = choose|j: int| 0 <= j < p.len() && p[j] == m;
                assert(s[j] == m);
            }
            if s.contains(m) && !p.contains(m) {
                let j = choose|j: int| 0 <= j < s.len() && s[j] == m;
                if j < p.len() {
                    assert(p[j] == m);
                }
            }
        }
    }
}

/// The ASCII uppercase of a character code (other codes unchanged).
pub open spec fn ascii_upper_code(v: u32) -> u32 {
    if 97 <= v <= 122 {
        (v - 32) as u32
    } else {
        v
    }
}

/// The Win32 virtual key code of a key.
pub open spec fn vk_spec(key: VirtualKey) -> u32 {
    match key {
        VirtualKey::Char(c) => ascii_upper_code(c as u32),
        VirtualKey::F(n) => (0x6F + n) as u32,
    }
}

/// Maps a key to its Win32 virtual key code: letters and digits are their
/// uppercase ASCII code, F1 is 0x70, F2 0x71 and so on.
pub fn vk_code(key: &VirtualKey) -> (r: u32)
    ensures
        r == vk_spec(*key),
{
    match key {
        VirtualKey::Char(c) => {
            let v = *c as u32;
            if 97 <= v && v <= 122 {
                v - 32
            } else {
                v
            }
        },
        VirtualKey::F(n) => 0x6F + (*n as u32),
    }
}

/// Whether an error code from `RegisterHotKey` means another application
/// already holds the hotkey (`ERROR_HOTKEY_ALREADY_REGISTERED` as HRESULT
/// 0x80070581).
pub fn is_conflict_code(hresult: i32) -> (r: bool)
    ensures
        r == (hresult == -2147023487i32),
{
    assert((hresult as u32 == 0x80070581u32) == (hresult == -2147023487i32)) by (bit_vector);
    hresult as u32 == 0x80070581u32
}

impl Settings {
    /// The taskbar hotkey to register: the configured one, and only in
    /// separate mode (when the taskbar does not follow the icons).
    pub fn active_taskbar_hotkey(&self) -> (r: Option<&HotkeyBinding>)
        ensures
            match r {
                Some(b) => !self.hide_taskbar_with_icons && self.taskbar_hotkey == Some(*b),
                None => self.hide_taskbar_with_icons || self.taskbar_hotkey is None,
            },
    {
        if self.hide_taskbar_with_icons {
            None
        } else {
            self.taskbar_hotkey.as_ref()
        }
    }
}

/// Modifier keys held during a keystroke.
#[derive(Debug, Clone, Copy, PartialEq, Eq, Structural)]
pub struct KeyModifiers {
    pub control: bool,
    pub alt: bool,
    pub shift: bool,
    pub platform: bool,
}

/// The modifiers of a keystroke, in the order Ctrl, Alt, Shift, Win.
pub open spec fn pressed_modifiers(m: KeyModifiers) -> Seq<Modifier> {
    (if m.control { seq![Modifier::Ctrl] } else { Seq::empty() }) + (if m.alt {
        seq![Modifier::Alt]
    } else {
        Seq::empty()
    }) + (if m.shift { seq![Modifier::Shift] } else { Seq::empty() }) + (if m.platform {
        seq![Modifier::Win]
    } else {
        Seq::empty()
    })
}

/// An ASCII letter or digit.
pub open spec fn is_ascii_alnum(b: u8) -> bool {
    (48 <= b <= 57) || (65 <= b <= 90) || (97 <= b <= 122)
}

/// Whether every byte is an ASCII digit.
pub open spec fn all_digits(d: Seq<u8>) -> bool {
    forall|i: int| 0 <= i < d.len() ==> 48 <= #[trigger] d[i] <= 57
}

/// The value of a string of ASCII digits.
pub open spec fn digits_value(d: Seq<u8>) -> nat
    decreases d.len(),
{
    if d.len() == 0 {
        0
    } else {
        digits_value(d.drop_last()) * 10 + (d.last() - 48) as nat
    }
}

/// What `u8::from_str` gives for these bytes: an optional `+` followed by
/// one or more ASCII digits whose value fits in a `u8`.
pub open spec fn parse_u8_spec(s: Seq<u8>) -> Option<u8> {
    let d = if s.len() > 0 && s[0] == 43 { s.skip(1) } else { s };
    if d.len() == 0 || !all_digits(d) || digits_value(d) > 255 {
        None
    } else {
        Some(digits_value(d) as u8)
    }
}

/// The primary key named by a key name: one ASCII letter or digit
/// (uppercased), or `f` followed by a number from 1 to 24.
pub open spec fn primary_key(key: Seq<u8>) -> Option<VirtualKey> {
    if key.len() == 1 {
        if is_ascii_alnum(key[0]) {
            Some(VirtualKey::Char(ascii_upper_code(key[0] as u32) as char))
        } else {
            None
        }
    } else if key.len() > 0 && key[0] == 102 {
        match parse_u8_spec(key.skip(1)) {
            Some(n) => if 1 <= n <= 24 {
                Some(VirtualKey::F(n))
            } else {
                None
            },
            None => None,
        }
    } else {
        None
    }
}

/// The binding a keystroke captures, if it is a valid hotkey.
pub open spec fn keystroke_binding(key: Seq<u8>, m: KeyModifiers) -> Option<
    (Seq<Modifier>, VirtualKey),
> {
    let mods = pressed_modifiers(m);
    if mods.len() == 0 {
        None
    } else {
        match primary_key(key) {
            Some(k) => if binding_is_valid((mods, k)) {
                Some((mods, k))
            } else {
                None
            },
            None => None,
        }
    }
}

/// `u8::from_str` on `bytes[from..]`.
fn parse_u8_from(bytes: &[u8], from: usize) -> (r: Option<u8>)
    requires
        from <= bytes@.len(),
    ensures
        r == parse_u8_spec(bytes@.skip(from as int)),
{
    let ghost s = bytes@.skip(from as int);
    let len = bytes.len();
    let mut start = from;
    if from < len && bytes[from] == 43 {
        start = from + 1;
    }
    let ghost d = bytes@.subrange(start as int, len as int);
    assert(d =~= if s.len() > 0 && s[0] == 43 { s.skip(1) } else { s });
    if start == len {
        return None;
    }
    let mut value: u32 = 0;
    let mut over = false;
    let mut i = start;
    while i < len
        invariant
            start <= i <= len,
            len == bytes@.len(),
            d == bytes@.subrange(start as int, len as int),
            s == bytes@.skip(from as int),
            d == (if s.len() > 0 && s[0] == 43 { s.skip(1) } else { s }),
            all_digits(bytes@.subrange(start as int, i as int)),
            over == (digits_value(bytes@.subrange(start as int, i as int)) > 255),
            !over ==> value == digits_value(bytes@.subrange(start as int, i as int)),
            value <= 255,
        decreases len - i,
    {
        let b = bytes[i];
        if b < 48 || b > 57 {
            assert(d[i - start] == b);
            assert(!all_digits(d));
            return None;
        }
        let ghost prev = bytes@.subrange(start as int, i as int);
        let ghost next = bytes@.subrange(start as int, i + 1);
        assert(next.drop_last() =~= prev);
        if !over {
            let nv = value * 10 + (b - 48) as u32;
            if nv > 255 {
                over = true;
            } else {
                value = nv;
            }
        }
        i = i + 1;
        assert forall|j: int| 0 <= j < next.len() implies 48 <= #[trigger] next[j] <= 57 by {
            if j < prev.len() {
                assert(next[j] == prev[j]);
            }
        }
    }
    assert(bytes@.subrange(start as int, i as int) =~= d);
    if over {
        None
    } else {
        Some(value as u8)
    }
}

/// Parses a captured keystroke (a key name and the modifiers held) into a
/// hotkey binding. A keystroke without a modifier, with a key that is not
/// an ASCII letter or digit or F1 to F24, or on F12, gives `None`; in
/// particular a lone modifier key ("control", "alt", "shift", "platform",
/// "fn") gives `None`.
pub fn parse_keystroke(key: &str, modifiers: KeyModifiers) -> (r: Option<HotkeyBinding>)
    ensures
        crate::settings::opt_binding(r) == keystroke_binding(key.spec_bytes(), modifiers),
        r matches Some(b) ==> binding_is_valid(b@),
        r matches Some(b) ==> {
            &&& b.modifiers@.contains(Modifier::Ctrl) == modifiers.control
            &&& b.modifiers@.contains(Modifier::Alt) == modifiers.alt
            &&& b.modifiers@.contains(Modifier::Shift) == modifiers.shift
            &&& b.modifiers@.contains(Modifier::Win) == modifiers.platform
        },
{
    proof {
        lemma_pressed_modifiers(modifiers);
    }
    let mut mods: Vec<Modifier> = Vec::new();
    if modifiers.control {
        mods.push(Modifier::Ctrl);
    }
    if modifiers.alt {
        mods.push(Modifier::Alt);
    }
    if modifiers.shift {
        mods.push(Modifier::Shift);
    }
    if modifiers.platform {
        mods.push(Modifier::Win);
    }
    assert(mods@ =~= pressed_modifiers(modifiers));
    if mods.len() == 0 {
        return None;
    }
    let bytes = key.as_bytes();
    let k = if bytes.len() == 1 {
        let b = bytes[0];
        if (48 <= b && b <= 57) || (65 <= b && b <= 90) || (97 <= b && b <= 122) {
            let upper: u8 = if 97 <= b { b - 32 } else { b };
            VirtualKey::Char(upper as char)
        } else {
            return None;
        }
    } else if bytes.len() > 0 && bytes[0] == 102 {
        match parse_u8_from(bytes, 1) {
            Some(n) => {
                if 1 <= n && n <= 24 {
                    VirtualKey::F(n)
                } else {
                    return None;
                }
            },
            None => return None,
        }
    } else {
        return None;
    };
    let binding = HotkeyBinding { modifiers: mods, key: k };
    if binding.is_valid() {
        Some(binding)
    } else {
        None
    }
}

/// The display name of a modifier.
pub open spec fn modifier_name(m: Modifier) -> Seq<char> {
    match m {
        Modifier::Ctrl => "Ctrl"@,
        Modifier::Alt => "Alt"@,
        Modifier::Shift => "Shift"@,
        Modifier::Win => "Win"@,
    }
}

/// The modifier names, each followed by " + ".
pub open spec fn mods_text(s: Seq<Modifier>) -> Seq<char>
    decreases s.len(),
{
    if s.len() == 0 {
        Seq::empty()
    } else {
        mods_text(s.drop_last()) + modifier_name(s.last()) + " + "@
    }
}

/// The display text of a key: the uppercase of a character (for ASCII,
/// a to z become A to Z and other characters stay), or F and the function
/// key number.
pub open spec fn key_text(k: VirtualKey) -> Seq<char> {
    match k {
        VirtualKey::Char(c) => if (c as u32) < 128 {
            seq![ascii_upper_char(c)]
        } else {
            char_uppercase(c)
        },
        VirtualKey::F(n) => "F"@ + decimal(n as nat),
    }
}

/// The display text of a binding: its modifiers and key joined by " + ".
pub open spec fn hotkey_text(b: (Seq<Modifier>, VirtualKey)) -> Seq<char> {
    mods_text(b.0) + key_text(b.1)
}

/// Formats a binding for display, such as "Ctrl + Alt + H".
pub fn format_hotkey(binding: &HotkeyBinding) -> (r: String)
    ensures
        r@ == hotkey_text(binding@),
{
    let mut s = String::new();
    let mut i: usize = 0;
    while i < binding.modifiers.len()
        invariant
            i <= binding.modifiers.len(),
            s@ == mods_text(binding.modifiers@.take(i as int)),
        decreases binding.modifiers.len() - i,
    {
        let name: &str = match binding.modifiers[i] {
            Modifier::Ctrl => "Ctrl",
            Modifier::Alt => "Alt",
            Modifier::Shift => "Shift",
            Modifier::Win => "Win",
        };
        s.append(name);
        s.append(" + ");
        assert(binding.modifiers@.take(i + 1).drop_last() =~= binding.modifiers@.take(i as int));
        i = i + 1;
    }
    assert(binding.modifiers@.take(i as int) =~= binding.modifiers@);
    match binding.key {
        VirtualKey::Char(c) => {
            let upper = to_uppercase_string(c);
            s.append(upper.as_str());
        },
        VirtualKey::F(n) => {
            s.append("F");
            append_decimal(&mut s, n as u32);
        },
    }
    s
}

/// The mask a binding registers has the no-repeat flag (0x4000), the
/// Win32 Alt flag (0x0001) exactly when the binding lists Alt, the Ctrl flag
/// (0x0002) exactly when it lists Ctrl, the Shift flag (0x0004) exactly when
/// it lists Shift, the Win flag (0x0008) exactly when it lists Win, and no
/// other bit.
pub proof fn lemma_make_mods_win32_flags(s: Seq<Modifier>)
    ensures
        mods_spec(s) & 0x4000u32 == 0x4000u32,
        (mods_spec(s) & 0x0001u32 != 0) == s.contains(Modifier::Alt),
        (mods_spec(s) & 0x0002u32 != 0) == s.contains(Modifier::Ctrl),
        (mods_spec(s) & 0x0004u32 != 0) == s.contains(Modifier::Shift),
        (mods_spec(s) & 0x0008u32 != 0) == s.contains(Modifier::Win),
        mods_spec(s) & !0x400fu32 == 0,
{
    lemma_mods_spec(s);
    assert((mods_spec(s) & modifier_bit(Modifier::Alt) != 0) == s.contains(Modifier::Alt));
    assert((mods_spec(s) & modifier_bit(Modifier::Ctrl) != 0) == s.contains(Modifier::Ctrl));
    assert((mods_spec(s) & modifier_bit(Modifier::Shift) != 0) == s.contains(Modifier::Shift));
    assert((mods_spec(s) & modifier_bit(Modifier::Win) != 0) == s.contains(Modifier::Win));
}

/// The modifiers of a keystroke hold Ctrl exactly when control is held,
/// Alt exactly when alt is held, Shift exactly when shift is held and Win
/// exactly when the platform (Windows) key is held; each at most once, in
/// the order Ctrl, Alt, Shift, Win.
pub proof fn lemma_pressed_modifiers(m: KeyModifiers)
    ensures
        pressed_modifiers(m).contains(Modifier::Ctrl) == m.control,
        pressed_modifiers(m).contains(Modifier::Alt) == m.alt,
        pressed_modifiers(m).contains(Modifier::Shift) == m.shift,
        pressed_modifiers(m).contains(Modifier::Win) == m.platform,
        pressed_modifiers(m).no_duplicates(),
        pressed_modifiers(m).len() == (if m.control { 1int } else { 0 }) + (if m.alt { 1int } else { 0 })
            + (if m.shift { 1int } else { 0 }) + (if m.platform { 1int } else { 0 }),
        pressed_modifiers(m).len() > 0 ==> pressed_modifiers(m)[0] == if m.control {
            Modifier::Ctrl
        } else if m.alt {
            Modifier::Alt
        } else if m.shift {
            Modifier::Shift
        } else {
            Modifier::Win
        },
{
    let a: Seq<Modifier> = if m.control { seq![Modifier::Ctrl] } else { Seq::empty() };
    let b: Seq<Modifier> = if m.alt { seq![Modifier::Alt] } else { Seq::empty() };
    let c: Seq<Modifier> = if m.shift { seq![Modifier::Shift] } else { Seq::empty() };
    let d: Seq<Modifier> = if m.platform { seq![Modifier::Win] } else { Seq::empty() };
    let p = pressed_modifiers(m);
    assert(p == a + b + c + d);
    assert forall|x: Modifier| #[trigger] p.contains(x) == ((x == Modifier::Ctrl && m.control) || (x
        == Modifier::Alt && m.alt) || (x == Modifier::Shift && m.shift) || (x == Modifier::Win
        && m.platform)) by {
        if p.contains(x) {
            let j = choose|j: int| 0 <= j < p.len() && p[j] == x;
            assert(p[j] == x);
        }
        if x == Modifier::Ctrl && m.control {
            assert(p[0] == x);
        }
        if x == Modifier::Alt && m.alt {
            assert(p[a.len() as int] == x);
        }
        if x == Modifier::Shift && m.shift {
            assert(p[(a.len() + b.len()) as int] == x);
        }
        if x == Modifier::Win && m.platform {
            assert(p[(a.len() + b.len() + c.len()) as int] == x);
        }
    }
    assert(p.contains(Modifier::Ctrl) == m.control);
    assert(p.contains(Modifier::Alt) == m.alt);
    assert(p.contains(Modifier::Shift) == m.shift);
    assert(p.contains(Modifier::Win) == m.platform);
    assert forall|i: int, j: int| 0 <= i < p.len() && 0 <= j < p.len() && i != j implies p[i] != p[j] by {
        let rank = |x: Modifier| match x {
            Modifier::Ctrl => 0int,
            Modifier::Alt => 1int,
            Modifier::Shift => 2int,
            Modifier::Win => 3int,
        };
        assert(forall|k: int, l: int| 0 <= k < l < p.len() ==> rank(p[k]) < rank(p[l]));
    }
}

/// A captured keystroke records the modifiers actually held: a parsed
/// binding lists Ctrl, Alt, Shift and Win exactly when control, alt, shift
/// and the platform key were held.
pub proof fn lemma_keystroke_keeps_modifiers(key: Seq<u8>, m: KeyModifiers)
    ensures
        keystroke_binding(key, m) matches Some(b) ==> {
            &&& b.0.contains(Modifier::Ctrl) == m.control
            &&& b.0.contains(Modifier::Alt) == m.alt
            &&& b.0.contains(Modifier::Shift) == m.shift
            &&& b.0.contains(Modifier::Win) == m.platform
        },
{
    lemma_pressed_modifiers(m);
}

/// Virtual key codes: an uppercase letter or a digit is its own ASCII code,
/// a lowercase letter has the code of its uppercase letter, and F1 to F24
/// are 0x70 to 0x87 in order.
pub proof fn lemma_vk_codes(c: char, n: u8)
    ensures
        ('A' <= c <= 'Z' || '0' <= c <= '9') ==> vk_spec(VirtualKey::Char(c)) == c as u32,
        'a' <= c <= 'z' ==> vk_spec(VirtualKey::Char(c)) == (c as u32) - 32,
        'a' <= c <= 'z' ==> 65 <= vk_spec(VirtualKey::Char(c)) <= 90,
        1 <= n <= 24 ==> vk_spec(VirtualKey::F(n)) == 0x70 + (n - 1),
{
}

} // verus!
