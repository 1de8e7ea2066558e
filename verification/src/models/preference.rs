//! The user's preference and the global shortcut it describes.
use vstd::prelude::*;

use global_hotkey::hotkey::{Code, HotKey, Modifiers};

verus! {

#[verifier::external_type_specification]
#[verifier::external_body]
pub struct ExCode(Code);

#[verifier::external_type_specification]
#[verifier::external_body]
pub struct ExHotKey(HotKey);

/// Bit of the Control modifier.
pub const MOD_CONTROL: u32 = 0x8;
/// Bit of the Meta (Command / Windows) modifier.
pub const MOD_META: u32 = 0x40;
/// Bit of the Alt modifier.
pub const MOD_ALT: u32 = 0x1;
/// Bit of the Shift modifier.
pub const MOD_SHIFT: u32 = 0x200;

/// The hotkey `global_hotkey` builds from a modifier bit set and a key.
pub uninterp spec fn hotkey_for(mods: Option<u32>, key: Code) -> HotKey;

/// The bits of an optional modifier set, none counting as no bit.
pub open spec fn bits_or_zero(mods: Option<u32>) -> u32 {
    match mods {
        Some(b) => b,
        None => 0,
    }
}

/// Bit of the legacy Super modifier, which `HotKey::new` turns into Meta.
pub const MOD_SUPER: u32 = 0x2000;

/// Calls `global_hotkey::hotkey::HotKey::new`, turning the bit set into its
/// `Modifiers`. Its result is named, not described. `HotKey::new` stores the
/// modifiers (none counting as the empty set, Super replaced by Meta) and
/// the key, and an id computed from both; so, without the Super bit, two
/// calls give the same hotkey only for the same bits and the same key.
#[verifier::external_body]
fn new_hotkey(mods: Option<u32>, key: Code) -> (h: HotKey)
    ensures
        h == hotkey_for(mods, key),
        forall|m2: Option<u32>, k2: Code|
            #[trigger] hotkey_for(m2, k2) == h && bits_or_zero(mods) & MOD_SUPER == 0
                && bits_or_zero(m2) & MOD_SUPER == 0 ==> bits_or_zero(m2) == bits_or_zero(mods)
                && k2 == key,
{
    HotKey::new(mods.map(Modifiers::from_bits_retain), key)
}

/// Compares two hotkeys with their derived `PartialEq`, which compares the
/// modifiers, the key and the id field by field.
#[verifier::external_body]
pub fn hotkey_eq(a: &HotKey, b: &HotKey) -> (r: bool)
    ensures
        r == (*a == *b),
{
    a == b
}

/// Compares two key codes with their derived `PartialEq` (a field-less enum).
#[verifier::external_body]
fn code_eq(a: &Code, b: &Code) -> (r: bool)
    ensures
        r == (*a == *b),
{
    a == b
}

/// The key code that `Code::from_str` gives for a key's name, if any.
pub uninterp spec fn code_named(name: Seq<char>) -> Option<Code>;

/// The name of the V key, as key codes are named.
pub open spec fn key_v_name() -> Seq<char> {
    seq!['K', 'e', 'y', 'V']
}

/// Calls `keyboard_types::Code::from_str`, which maps the name of each key
/// (such as "KeyV" for the V key) to its code and refuses any other text.
/// Its result is named; the contract also says that "KeyV" is such a name.
#[verifier::external_body]
fn code_from_name(name: &str) -> (r: Option<Code>)
    ensures
        r == code_named(name@),
        name@ == key_v_name() ==> r is Some,
{
    name.parse::<Code>().ok()
}

/// A global shortcut: the modifiers held and the key pressed.
#[derive(Debug, Clone, Copy)]
pub struct ShortcutInfo {
    pub ctrl: bool,
    pub meta: bool,
    pub alt: bool,
    pub shift: bool,
    pub code: Code,
}

impl PartialEq for ShortcutInfo {
    fn eq(&self, other: &Self) -> (r: bool) {
        self.ctrl == other.ctrl && self.meta == other.meta && self.alt == other.alt
            && self.shift == other.shift && code_eq(&self.code, &other.code)
    }
}

impl vstd::std_specs::cmp::PartialEqSpecImpl for ShortcutInfo {
    open spec fn obeys_eq_spec() -> bool {
        true
    }

    open spec fn eq_spec(&self, other: &Self) -> bool {
        self.ctrl == other.ctrl && self.meta == other.meta && self.alt == other.alt
            && self.shift == other.shift && self.code == other.code
    }
}

impl Eq for ShortcutInfo {}

impl ShortcutInfo {
    /// The modifier bits held, or none when no modifier is held.
    pub open spec fn spec_modifier_bits(&self) -> Option<u32> {
        if !(self.ctrl || self.meta || self.alt || self.shift) {
            None
        } else {
            Some(
                (if self.ctrl { MOD_CONTROL } else { 0u32 }) | (if self.meta { MOD_META } else { 0u32 })
                    | (if self.alt { MOD_ALT } else { 0u32 }) | (if self.shift { MOD_SHIFT } else { 0u32 }),
            )
        }
    }

    /// The modifier bit set of this shortcut: none when no modifier is
    /// held, else the union of the bits of those held.
    pub fn modifier_bits(&self) -> (r: Option<u32>)
        ensures
            r == self.spec_modifier_bits(),
    {
        proof {
            assert(forall|x: u32| (x | 0u32) == x && (0u32 | x) == x) by (bit_vector);
        }
        let mut m: Option<u32> = None;
        if self.ctrl {
            m = match m {
                Some(x) => Some(x | MOD_CONTROL),
                None => Some(MOD_CONTROL),
            };
        }
        if self.meta {
            m = match m {
                Some(x) => Some(x | MOD_META),
                None => Some(MOD_META),
            };
        }
        if self.alt {
            m = match m {
                Some(x) => Some(x | MOD_ALT),
                None => Some(MOD_ALT),
            };
        }
        if self.shift {
            m = match m {
                Some(x) => Some(x | MOD_SHIFT),
                None => Some(MOD_SHIFT),
            };
        }
        m
    }

    /// The hotkey to register for this shortcut; no other shortcut gives the same hotkey.
    pub fn shortcut(&self) -> (h: HotKey)
        ensures
            h == hotkey_for(self.spec_modifier_bits(), self.code),
            forall|other: ShortcutInfo|
                #[trigger] hotkey_for(other.spec_modifier_bits(), other.code) == h ==> other == *self,
    {
        let mods = self.modifier_bits();
        let h = new_hotkey(mods, self.code);
        proof {
            assert forall|other: ShortcutInfo|
                #[trigger] hotkey_for(other.spec_modifier_bits(), other.code) == h implies other
                == *self by {
                lemma_modifier_bits_determine(*self);
                lemma_modifier_bits_determine(other);
                let b1 = bits_or_zero(self.spec_modifier_bits());
                let b2 = bits_or_zero(other.spec_modifier_bits());
                assert(b1 == b2);
                lemma_mask_injective(self.ctrl, self.meta, self.alt, self.shift, other.ctrl, other.meta, other.alt, other.shift);
            }
        }
        h
    }
}

/// Each held modifier contributes exactly its own bit of `Modifiers` (Alt
/// 0x1, Control 0x8, Meta 0x40, Shift 0x200), whatever else is held, and no
/// other bit is set; holding no modifier gives no bit set at all.
pub proof fn law_modifier_bits_are_held_flags(s: ShortcutInfo)
    ensures
        s.spec_modifier_bits() is None <==> !(s.ctrl || s.meta || s.alt || s.shift),
        s.spec_modifier_bits() matches Some(b) ==> {
            &&& (b & 0x1u32 != 0) == s.alt
            &&& (b & 0x8u32 != 0) == s.ctrl
            &&& (b & 0x40u32 != 0) == s.meta
            &&& (b & 0x200u32 != 0) == s.shift
            &&& b & !0x249u32 == 0
        },
{
    let c = s.ctrl;
    let m = s.meta;
    let a = s.alt;
    let sh = s.shift;
    if c || m || a || sh {
        let b = (if c { 0x8u32 } else { 0u32 }) | (if m { 0x40u32 } else { 0u32 }) | (if a {
            0x1u32
        } else {
            0u32
        }) | (if sh { 0x200u32 } else { 0u32 });
        assert(s.spec_modifier_bits() == Some(b));
        assert({
            &&& (b & 0x1u32 != 0) == a
            &&& (b & 0x8u32 != 0) == c
            &&& (b & 0x40u32 != 0) == m
            &&& (b & 0x200u32 != 0) == sh
            &&& b & !0x249u32 == 0
        }) by (bit_vector)
            requires
                b == (if c { 0x8u32 } else { 0u32 }) | (if m { 0x40u32 } else { 0u32 }) | (if a {
                    0x1u32
                } else {
                    0u32
                }) | (if sh { 0x200u32 } else { 0u32 }),
        ;
    }
}

/// The modifier bits of held flags.
pub open spec fn modifier_mask(ctrl: bool, meta: bool, alt: bool, shift: bool) -> u32 {
    (if ctrl { MOD_CONTROL } else { 0u32 }) | (if meta { MOD_META } else { 0u32 }) | (if alt {
        MOD_ALT
    } else {
        0u32
    }) | (if shift { MOD_SHIFT } else { 0u32 })
}

/// Distinct sets of held flags have distinct modifier bits, none of them Super.
proof fn lemma_mask_injective(
    c1: bool, m1: bool, a1: bool, s1: bool, c2: bool, m2: bool, a2: bool, s2: bool,
)
    ensures
        modifier_mask(c1, m1, a1, s1) & MOD_SUPER == 0,
        modifier_mask(c1, m1, a1, s1) == modifier_mask(c2, m2, a2, s2) ==> c1 == c2 && m1 == m2
            && a1 == a2 && s1 == s2,
        (c1 || m1 || a1 || s1) ==> modifier_mask(c1, m1, a1, s1) != 0,
{
    assert(modifier_mask(c1, m1, a1, s1) & MOD_SUPER == 0) by (bit_vector);
    assert(modifier_mask(c1, m1, a1, s1) == modifier_mask(c2, m2, a2, s2) ==> c1 == c2 && m1 == m2
        && a1 == a2 && s1 == s2) by (bit_vector);
    assert((c1 || m1 || a1 || s1) ==> modifier_mask(c1, m1, a1, s1) != 0) by (bit_vector);
}

/// The bits of a shortcut are the mask of its flags, and none exactly when no flag is held.
proof fn lemma_modifier_bits_determine(s: ShortcutInfo)
    ensures
        bits_or_zero(s.spec_modifier_bits()) == modifier_mask(s.ctrl, s.meta, s.alt, s.shift),
        bits_or_zero(s.spec_modifier_bits()) & MOD_SUPER == 0,
        s.spec_modifier_bits() is None <==> !(s.ctrl || s.meta || s.alt || s.shift),
{
    lemma_mask_injective(s.ctrl, s.meta, s.alt, s.shift, s.ctrl, s.meta, s.alt, s.shift);
    if !(s.ctrl || s.meta || s.alt || s.shift) {
        assert(modifier_mask(false, false, false, false) == 0) by (bit_vector);
    }
}

/// The shortcut used when none was saved: Control+Shift+V, or Command+Shift+V on macOS.
pub fn default_shortcut_info(macos: bool) -> (r: ShortcutInfo)
    ensures
        r.ctrl == !macos,
        r.meta == macos,
        !r.alt,
        r.shift,
        Some(r.code) == code_named(key_v_name()),
{
    let name = "KeyV";
    proof {
        reveal_strlit("KeyV");
        assert(name@ =~= key_v_name());
    }
    let code = code_from_name(name).unwrap();
    ShortcutInfo { ctrl: !macos, meta: macos, alt: false, shift: true, code }
}

/// Settings the user can change.
#[derive(Debug, Clone, Copy)]
pub struct PreferenceData {
    pub shortcut: ShortcutInfo,
    pub limit: usize,
    pub hide_app_when_losing_focus: bool,
    pub send_notification_when_copy: bool,
}

impl PreferenceData {
    /// The settings used when none were saved: the platform's default
    /// shortcut, at most 100 entries, hide on focus loss, no notification.
    pub fn default_for(macos: bool) -> (r: Self)
        ensures
            r.shortcut.ctrl == !macos,
            r.shortcut.meta == macos,
            !r.shortcut.alt,
            r.shortcut.shift,
            Some(r.shortcut.code) == code_named(key_v_name()),
            r.limit == 100,
            r.hide_app_when_losing_focus,
            !r.send_notification_when_copy,
    {
        PreferenceData {
            shortcut: default_shortcut_info(macos),
            limit: 100,
            hide_app_when_losing_focus: true,
            send_notification_when_copy: false,
        }
    }
}

/// The preference in force after loading: the saved one when it could be
/// parsed, else the defaults; the limit brought into 10..=999 either way.
pub fn load_preference(parsed: Option<PreferenceData>, macos: bool) -> (r: PreferenceData)
    ensures
        10 <= r.limit <= 999,
        parsed is Some ==> {
            let p = parsed->0;
            &&& r.shortcut == p.shortcut
            &&& r.hide_app_when_losing_focus == p.hide_app_when_losing_focus
            &&& r.send_notification_when_copy == p.send_notification_when_copy
            &&& r.limit == (if p.limit < 10 { 10 } else if p.limit > 999 { 999 } else { p.limit })
        },
        parsed is None ==> {
            &&& r.shortcut.ctrl == !macos
            &&& r.shortcut.meta == macos
            &&& !r.shortcut.alt
            &&& r.shortcut.shift
            &&& Some(r.shortcut.code) == code_named(key_v_name())
            &&& r.limit == 100
            &&& r.hide_app_when_losing_focus
            &&& !r.send_notification_when_copy
        },
{
    let mut preference = match parsed {
        Some(p) => p,
        None => PreferenceData::default_for(macos),
    };
    preference.limit = if preference.limit < 10 {
        10
    } else if preference.limit > 999 {
        999
    } else {
        preference.limit
    };
    preference
}

} // verus!
