use vstd::prelude::*;
use crate::text::{equal_text, find_char, lemma_run_before_bound, lit, run_before};

verus! {

/// The emoji for a weather icon code; a question mark for an unknown code.
pub open spec fn weather_glyph(code: Seq<char>) -> Seq<char> {
    if code == "01d"@ {
        "\u{2600}\u{fe0f}"@
    } else if code == "01n"@ || code == "02n"@ {
        "\u{1f319}"@
    } else if code == "02d"@ {
        "\u{26c5}\u{fe0f}"@
    } else if code == "03d"@ || code == "03n"@ || code == "04d"@ || code == "04n"@ {
        "\u{2601}\u{fe0f}"@
    } else if code == "09d"@ || code == "09n"@ || code == "10d"@ || code == "10n"@ {
        "\u{1f327}\u{fe0f}"@
    } else if code == "11d"@ || code == "11n"@ {
        "\u{26c8}\u{fe0f}"@
    } else if code == "13d"@ || code == "13n"@ {
        "\u{1f328}\u{fe0f}"@
    } else if code == "40d"@ || code == "40n"@ || code == "50d"@ || code == "50n"@ {
        "\u{1f32b}\u{fe0f}"@
    } else {
        "\u{2753}"@
    }
}

/// The emoji for a weather icon code such as `01d`.
pub fn weather_icon(code: &str) -> (r: String)
    ensures
        r@ == weather_glyph(code@),
{
    let s = if equal_text(code, "01d") {
        "\u{2600}\u{fe0f}"
    } else if equal_text(code, "01n") || equal_text(code, "02n") {
        "\u{1f319}"
    } else if equal_text(code, "02d") {
        "\u{26c5}\u{fe0f}"
    } else if equal_text(code, "03d") || equal_text(code, "03n") || equal_text(code, "04d")
        || equal_text(code, "04n") {
        "\u{2601}\u{fe0f}"
    } else if equal_text(code, "09d") || equal_text(code, "09n") || equal_text(code, "10d")
        || equal_text(code, "10n") {
        "\u{1f327}\u{fe0f}"
    } else if equal_text(code, "11d") || equal_text(code, "11n") {
        "\u{26c8}\u{fe0f}"
    } else if equal_text(code, "13d") || equal_text(code, "13n") {
        "\u{1f328}\u{fe0f}"
    } else if equal_text(code, "40d") || equal_text(code, "40n") || equal_text(code, "50d")
        || equal_text(code, "50n") {
        "\u{1f32b}\u{fe0f}"
    } else {
        "\u{2753}"
    };
    lit(s)
}

/// The temperature scale letter for a unit system: `F` for imperial, else `C`.
pub open spec fn scale_letter(units: Seq<char>) -> Seq<char> {
    if units == "imperial"@ {
        "F"@
    } else {
        "C"@
    }
}

/// The temperature scale letter for a unit system.
pub fn degree_unit(units: &str) -> (r: String)
    ensures
        r@ == scale_letter(units@),
{
    if equal_text(units, "imperial") {
        lit("F")
    } else {
        lit("C")
    }
}

/// The integer digits of a decimal temperature text: all before the point.
pub open spec fn whole_part(temp: Seq<char>) -> Seq<char> {
    temp.take(run_before(temp, '.'))
}

/// The integer digits of a decimal temperature text, cut, not rounded.
pub fn truncate_temp(temp: &str) -> (r: &str)
    ensures
        r@ == whole_part(temp@),
{
    let p = find_char(temp, '.');
    proof {
        lemma_run_before_bound(temp@, '.');
    }
    let r = temp.substring_char(0, p);
    assert(r@ =~= whole_part(temp@));
    r
}

/// The weather row text.
pub open spec fn weather_text(code: Seq<char>, condition: Seq<char>, temp: Seq<char>, units: Seq<char>) -> Seq<char> {
    "\u{2502} "@ + weather_glyph(code) + " "@ + condition + " "@ + whole_part(temp) + "\u{b0}"@
        + scale_letter(units)
}

/// The weather row text from the current conditions: icon code, condition
/// name, temperature as decimal text, and the configured unit system; as in
/// `│ ☀️ Clear 21°C`.
pub fn get_weather(code: &str, condition: &str, temp: &str, units: &str) -> (r: String)
    ensures
        r@ == weather_text(code@, condition@, temp@, units@),
{
    lit("\u{2502} ").concat(weather_icon(code).as_str()).concat(" ").concat(condition).concat(
        " ",
    ).concat(truncate_temp(temp)).concat("\u{b0}").concat(degree_unit(units).as_str())
}

} // verus!
