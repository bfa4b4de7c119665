use vstd::prelude::*;

verus! {

/// Advertised name of the one peripheral this library binds to.
pub const ESP_BLE_NAME: &'static str = "esp-bluedroid LED Example";

/// Identifier (as a 128-bit integer) of the characteristic that takes
/// configuration payloads.
pub const LED_CONFIG_CHARACTERISTIC: u128 = 42424242;

/// The target name as a sequence of characters.
pub open spec fn target_name() -> Seq<char> {
    ESP_BLE_NAME@
}

/// A peripheral matches when it advertises a name equal, character for
/// character, to the target name. A peripheral without a name never matches.
pub open spec fn name_matches(name: Option<Seq<char>>) -> bool {
    name == Some(target_name())
}

/// The view of an optional advertised name.
pub open spec fn name_view(name: &Option<String>) -> Option<Seq<char>> {
    match name {
        Some(s) => Some(s@),
        None => None,
    }
}

/// Whether an advertised name (if any) is the target name.
pub fn is_target_name(name: &Option<String>) -> (r: bool)
    ensures
        r == name_matches(name_view(name)),
{
    match name {
        Some(s) => {
            let target = String::from_str(ESP_BLE_NAME);
            *s == target
        },
        None => false,
    }
}

} // verus!
