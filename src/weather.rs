//! Weather and calendar helpers of the journal context.

use vstd::prelude::*;

verus! {

/// The symbolic condition name for a WeatherAPI condition code.
pub open spec fn condition_name(code: i32) -> Seq<char> {
    if code == 1000 {
        "clear"@
    } else if code == 1003 {
        "partly_cloudy"@
    } else if code == 1006 || code == 1009 {
        "cloudy"@
    } else if code == 1030 || code == 1135 || code == 1147 {
        "fog"@
    } else if code == 1063 || code == 1150 || code == 1153 || code == 1168 || code == 1171 {
        "drizzle"@
    } else if code == 1066 || code == 1069 || code == 1072 || code == 1114 || code == 1117
        || code == 1210 || code == 1213 || code == 1216 || code == 1219 || code == 1222
        || code == 1225 || code == 1237 || code == 1255 || code == 1258 || code == 1261
        || code == 1264 {
        "snow"@
    } else if code == 1087 || code == 1273 || code == 1276 || code == 1279 || code == 1282 {
        "thunderstorm"@
    } else if code == 1180 || code == 1183 || code == 1186 || code == 1189 || code == 1192
        || code == 1195 || code == 1198 || code == 1201 || code == 1204 || code == 1207
        || code == 1240 || code == 1243 || code == 1246 || code == 1249 || code == 1252 {
        "rain"@
    } else {
        "unknown"@
    }
}

/// Maps a WeatherAPI condition code to the journal's condition vocabulary.
pub fn map_condition_code(code: i32) -> (r: String)
    ensures
        r@ == condition_name(code),
{
    match code {
        1000 => String::from_str("clear"),
        1003 => String::from_str("partly_cloudy"),
        1006 | 1009 => String::from_str("cloudy"),
        1030 | 1135 | 1147 => String::from_str("fog"),
        1063 | 1150 | 1153 | 1168 | 1171 => String::from_str("drizzle"),
        1066 | 1069 | 1072 | 1114 | 1117 | 1210 | 1213 | 1216 | 1219 | 1222 | 1225 | 1237
        | 1255 | 1258 | 1261 | 1264 => String::from_str("snow"),
        1087 | 1273 | 1276 | 1279 | 1282 => String::from_str("thunderstorm"),
        1180 | 1183 | 1186 | 1189 | 1192 | 1195 | 1198 | 1201 | 1204 | 1207 | 1240 | 1243
        | 1246 | 1249 | 1252 => String::from_str("rain"),
        _ => String::from_str("unknown"),
    }
}

} // verus!

verus! {

use crate::clock::{utc_hour, utc_weekday_from_monday, utc_timestamp};

/// The part of the day an hour (0 to 23) falls in.
pub open spec fn part_of_day(hour: u32) -> Seq<char> {
    if 5 <= hour <= 11 {
        "morning"@
    } else if 12 <= hour <= 16 {
        "afternoon"@
    } else if 17 <= hour <= 20 {
        "evening"@
    } else {
        "night"@
    }
}

pub fn time_of_day_for_hour(hour: u32) -> (r: String)
    ensures
        r@ == part_of_day(hour),
{
    if 5 <= hour && hour <= 11 {
        String::from_str("morning")
    } else if 12 <= hour && hour <= 16 {
        String::from_str("afternoon")
    } else if 17 <= hour && hour <= 20 {
        String::from_str("evening")
    } else {
        String::from_str("night")
    }
}

/// The part of the day now, by the UTC hour.
pub fn get_time_of_day() -> (r: String)
    ensures
        exists|h: u32| h < 24 && r@ == part_of_day(h),
{
    let h = utc_hour();
    time_of_day_for_hour(h)
}

/// The English name of a weekday counted from Monday as 0.
pub open spec fn weekday_name(d: u32) -> Seq<char> {
    if d == 0 {
        "Monday"@
    } else if d == 1 {
        "Tuesday"@
    } else if d == 2 {
        "Wednesday"@
    } else if d == 3 {
        "Thursday"@
    } else if d == 4 {
        "Friday"@
    } else if d == 5 {
        "Saturday"@
    } else {
        "Sunday"@
    }
}

pub fn day_name(d: u32) -> (r: String)
    ensures
        r@ == weekday_name(d),
{
    match d {
        0 => String::from_str("Monday"),
        1 => String::from_str("Tuesday"),
        2 => String::from_str("Wednesday"),
        3 => String::from_str("Thursday"),
        4 => String::from_str("Friday"),
        5 => String::from_str("Saturday"),
        _ => String::from_str("Sunday"),
    }
}

/// The name of today's weekday in UTC.
pub fn get_day_of_week() -> (r: String)
    ensures
        exists|d: u32| d < 7 && r@ == weekday_name(d),
{
    let d = utc_weekday_from_monday();
    day_name(d)
}

/// Length of the lunar cycle, in hundred-thousandths of a day.
pub const LUNAR_CYCLE: i128 = 2_953_059;

/// A new moon's offset from the Unix epoch, in hundred-thousandths of a day.
pub const NEW_MOON_EPOCH: i128 = 1_083_890;

/// Days since the reference new moon, in hundred-thousandths of a day.
pub open spec fn moon_age(timestamp: int) -> int {
    timestamp * 125 / 108 - NEW_MOON_EPOCH
}

/// The phase of the moon at a Unix timestamp, by the age within the cycle.
pub open spec fn moon_phase_name(timestamp: int) -> Seq<char> {
    let x = moon_age(timestamp);
    let d = if x < 0 {
        0
    } else {
        x % (LUNAR_CYCLE as int)
    };
    if d < 185_000 {
        "New Moon"@
    } else if d < 553_000 {
        "Waxing Crescent"@
    } else if d < 922_000 {
        "First Quarter"@
    } else if d < 1_291_000 {
        "Waxing Gibbous"@
    } else if d < 1_661_000 {
        "Full Moon"@
    } else if d < 2_030_000 {
        "Waning Gibbous"@
    } else if d < 2_399_000 {
        "Last Quarter"@
    } else if d < 2_768_000 {
        "Waning Crescent"@
    } else {
        "New Moon"@
    }
}

/// The moon phase at a Unix timestamp (seconds), computed in fixed point to
/// a hundred-thousandth of a day; before the reference new moon it is new.
pub fn moon_phase_at(timestamp: i64) -> (r: String)
    ensures
        r@ == moon_phase_name(timestamp as int),
{
    let x: i128 = if timestamp < 0 {
        assert(moon_age(timestamp as int) < 0) by (nonlinear_arith)
            requires
                timestamp < 0,
        ;
        -1
    } else {
        timestamp as i128 * 125 / 108 - NEW_MOON_EPOCH
    };
    let d: i128 = if x < 0 {
        0
    } else {
        x % LUNAR_CYCLE
    };
    if d < 185_000 {
        String::from_str("New Moon")
    } else if d < 553_000 {
        String::from_str("Waxing Crescent")
    } else if d < 922_000 {
        String::from_str("First Quarter")
    } else if d < 1_291_000 {
        String::from_str("Waxing Gibbous")
    } else if d < 1_661_000 {
        String::from_str("Full Moon")
    } else if d < 2_030_000 {
        String::from_str("Waning Gibbous")
    } else if d < 2_399_000 {
        String::from_str("Last Quarter")
    } else if d < 2_768_000 {
        String::from_str("Waning Crescent")
    } else {
        String::from_str("New Moon")
    }
}

/// The moon phase now.
pub fn get_moon_phase() -> (r: String)
    ensures
        exists|t: int| t >= 0 && r@ == moon_phase_name(t),
{
    let t = utc_timestamp();
    moon_phase_at(t)
}

/// The label of a place: `name, country`.
pub open spec fn place_label(name: Seq<char>, country: Seq<char>) -> Seq<char> {
    name + ", "@ + country
}

pub fn location_label(name: &str, country: &str) -> (r: String)
    ensures
        r@ == place_label(name@, country@),
{
    String::from_str(name).concat(", ").concat(country)
}

/// The error when the lookup service reports a failure.
pub open spec fn lookup_failed_text() -> Seq<char> {
    "Location detection failed"@
}

/// The error when the lookup names no city.
pub open spec fn no_city_text() -> Seq<char> {
    "Could not determine location"@
}

/// The location named by an IP lookup: `city, country`, or the city alone,
/// and an error when the lookup failed or names no city.
pub fn location_from_lookup(status: &str, city: Option<String>, country: Option<String>) -> (r: Result<String, String>)
    ensures
        status@ != "success"@ ==> r is Err && r->Err_0@ == lookup_failed_text(),
        status@ == "success"@ ==> match (city, country) {
            (Some(c), Some(k)) => r is Ok && r->Ok_0@ == place_label(c@, k@),
            (Some(c), None) => r is Ok && r->Ok_0@ == c@,
            _ => r is Err && r->Err_0@ == no_city_text(),
        },
{
    if !crate::json::text_eq(status, "success") {
        return Err(String::from_str("Location detection failed"));
    }
    match (city, country) {
        (Some(c), Some(k)) => Ok(location_label(c.as_str(), k.as_str())),
        (Some(c), None) => Ok(c),
        _ => Err(String::from_str("Could not determine location")),
    }
}

/// The WeatherAPI base URL.
pub open spec fn weather_base() -> Seq<char> {
    "https://api.weatherapi.com/v1"@
}

/// The error when no weather API key is configured.
pub open spec fn missing_key_text() -> Seq<char> {
    "Weather API key not configured"@
}

/// The current-conditions request for a location, or an error when the API
/// key is empty.
pub fn weather_request_url(api_key: &str, location: &str) -> (r: Result<String, String>)
    ensures
        api_key@.len() == 0 ==> r is Err && r->Err_0@ == missing_key_text(),
        api_key@.len() > 0 ==> r is Ok && r->Ok_0@ == weather_base() + "/current.json?key="@
            + api_key@ + "&q="@ + location@ + "&aqi=no"@,
{
    if api_key.unicode_len() == 0 {
        return Err(String::from_str("Weather API key not configured"));
    }
    let u = String::from_str("https://api.weatherapi.com/v1");
    Ok(u.concat("/current.json?key=").concat(api_key).concat("&q=").concat(location).concat("&aqi=no"))
}

} // verus!

verus! {

/// Whether the journal context should include the weather: only when both an
/// API key and a location are configured.
pub fn weather_wanted(api_key: &str, location: &str) -> (r: bool)
    ensures
        r == (api_key@.len() > 0 && location@.len() > 0),
{
    api_key.unicode_len() > 0 && location.unicode_len() > 0
}

} // verus!
