//! Platform decisions that do not depend on the platform's own calls.
use vstd::prelude::*;

verus! {

/// The key's character under a given modifier state is `target`.
pub open spec fn key_matches(target: Seq<char>, key: Option<String>) -> bool {
    key matches Some(k) && k@ == target
}

/// Key code `k` types `target`, with no modifier or with Shift.
pub open spec fn keycode_types(target: Seq<char>, plain: Seq<Option<String>>, shifted: Seq<Option<String>>, k: int) -> bool {
    key_matches(target, plain[k]) || key_matches(target, shifted[k])
}

/// Chooses the key code that types `target` on the current keyboard layout,
/// given what each of the 128 key codes types with no modifier (`plain`) and
/// with Shift (`shifted`): the largest code that types it, or 0 when none does.
pub fn layout_keycode(target: &str, plain: &Vec<Option<String>>, shifted: &Vec<Option<String>>) -> (r: u16)
    requires
        plain@.len() == 128,
        shifted@.len() == 128,
    ensures
        (forall|k: int| 0 <= k < 128 ==> !keycode_types(target@, plain@, shifted@, k)) ==> r == 0,
        (exists|k: int| 0 <= k < 128 && keycode_types(target@, plain@, shifted@, k)) ==> {
            &&& r < 128
            &&& keycode_types(target@, plain@, shifted@, r as int)
            &&& forall|k: int| r < k < 128 ==> !keycode_types(target@, plain@, shifted@, k)
        },
{
    let wanted = target.to_owned();
    let mut pressed: u16 = 0;
    let mut found = false;
    let mut keycode: u16 = 0;
    while keycode < 128
        invariant
            keycode <= 128,
            plain@.len() == 128,
            shifted@.len() == 128,
            wanted@ == target@,
            found ==> pressed < keycode && keycode_types(target@, plain@, shifted@, pressed as int),
            found ==> forall|k: int| pressed < k < keycode ==> !keycode_types(target@, plain@, shifted@, k),
            !found ==> pressed == 0 && forall|k: int| 0 <= k < keycode ==> !keycode_types(target@, plain@, shifted@, k),
        decreases 128 - keycode,
    {
        let i = keycode as usize;
        if let Some(key_string) = &plain[i] {
            if *key_string == wanted {
                pressed = keycode;
                found = true;
            }
        }
        if let Some(key_string) = &shifted[i] {
            if *key_string == wanted {
                pressed = keycode;
                found = true;
            }
        }
        keycode = keycode + 1;
    }
    pressed
}

} // verus!
