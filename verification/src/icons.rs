//! The icon that stands for a kind of device.
use vstd::prelude::*;
use crate::model::Icon;
use crate::text::{lower_chars, ascii_lowercase_chars, chars_equal};

verus! {

/// The icon for a device kind already in small letters.
pub open spec fn icon_for_lower_kind(k: Seq<char>) -> Icon {
    if k == "computer"@ {
        Icon::Laptop
    } else if k == "smartphone"@ {
        Icon::Smartphone
    } else if k == "tablet"@ {
        Icon::Tablet
    } else if k == "tv"@ {
        Icon::Tv
    } else if k == "game_console"@ {
        Icon::Gamepad
    } else if k == "automobile"@ {
        Icon::Car
    } else if k == "cast_video"@ || k == "cast_audio"@ || k == "castaudio"@ || k == "castvideo"@ {
        Icon::Cast
    } else if k == "smartwatch"@ {
        Icon::Watch
    } else if k == "avr"@ || k == "stb"@ || k == "audio_dongle"@ {
        Icon::Monitor
    } else {
        Icon::Speaker
    }
}

/// The icon for a device kind, whatever the case of its ASCII letters.
pub open spec fn icon_for_kind(kind: Seq<char>) -> Icon {
    icon_for_lower_kind(lower_chars(kind))
}

/// The icon drawn for a device of the given kind, as Spotify names kinds;
/// letters are compared without regard to ASCII case, and an unknown kind is
/// drawn as a speaker.
pub fn device_icon(kind: &str) -> (icon: Icon)
    ensures
        icon == icon_for_kind(kind@),
{
    let k = ascii_lowercase_chars(kind);
    if chars_equal(&k, "computer") {
        Icon::Laptop
    } else if chars_equal(&k, "smartphone") {
        Icon::Smartphone
    } else if chars_equal(&k, "tablet") {
        Icon::Tablet
    } else if chars_equal(&k, "tv") {
        Icon::Tv
    } else if chars_equal(&k, "game_console") {
        Icon::Gamepad
    } else if chars_equal(&k, "automobile") {
        Icon::Car
    } else if chars_equal(&k, "cast_video") || chars_equal(&k, "cast_audio")
        || chars_equal(&k, "castaudio") || chars_equal(&k, "castvideo") {
        Icon::Cast
    } else if chars_equal(&k, "smartwatch") {
        Icon::Watch
    } else if chars_equal(&k, "avr") || chars_equal(&k, "stb") || chars_equal(&k, "audio_dongle") {
        Icon::Monitor
    } else {
        Icon::Speaker
    }
}

} // verus!
