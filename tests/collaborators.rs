use helper::assistant::{chat_reply, chat_url, ollama_status, tags_url, TagsOutcome};
use helper::weather::{
    day_name, get_day_of_week, get_moon_phase, get_time_of_day, location_from_lookup,
    location_label, map_condition_code, moon_phase_at, time_of_day_for_hour, weather_request_url,
    weather_wanted,
};

#[test]
fn condition_codes() {
    assert_eq!(map_condition_code(1000), "clear");
    assert_eq!(map_condition_code(1003), "partly_cloudy");
    assert_eq!(map_condition_code(1009), "cloudy");
    assert_eq!(map_condition_code(1135), "fog");
    assert_eq!(map_condition_code(1153), "drizzle");
    assert_eq!(map_condition_code(1264), "snow");
    assert_eq!(map_condition_code(1087), "thunderstorm");
    assert_eq!(map_condition_code(1195), "rain");
    assert_eq!(map_condition_code(9999), "unknown");
}

#[test]
fn parts_of_day() {
    assert_eq!(time_of_day_for_hour(4), "night");
    assert_eq!(time_of_day_for_hour(5), "morning");
    assert_eq!(time_of_day_for_hour(11), "morning");
    assert_eq!(time_of_day_for_hour(12), "afternoon");
    assert_eq!(time_of_day_for_hour(17), "evening");
    assert_eq!(time_of_day_for_hour(20), "evening");
    assert_eq!(time_of_day_for_hour(21), "night");
    let now = get_time_of_day();
    assert!(["morning", "afternoon", "evening", "night"].contains(&now.as_str()));
}

#[test]
fn weekday_names() {
    assert_eq!(day_name(0), "Monday");
    assert_eq!(day_name(3), "Thursday");
    assert_eq!(day_name(6), "Sunday");
    let today = get_day_of_week();
    assert!(["Monday", "Tuesday", "Wednesday", "Thursday", "Friday", "Saturday", "Sunday"].contains(&today.as_str()));
}

#[test]
fn moon_phases() {
    assert_eq!(moon_phase_at(0), "New Moon");
    assert_eq!(moon_phase_at(-5), "New Moon");
    assert_eq!(moon_phase_at(1_700_000_000), "Waning Crescent");
    assert_eq!(moon_phase_at(1_704_067_200), "Full Moon");
    assert!(!get_moon_phase().is_empty());
}

#[test]
fn ip_lookup_locations() {
    assert_eq!(location_from_lookup("success", Some("Oslo".to_string()), Some("Norway".to_string())).unwrap(), "Oslo, Norway");
    assert_eq!(location_from_lookup("success", Some("Oslo".to_string()), None).unwrap(), "Oslo");
    assert_eq!(location_from_lookup("success", None, Some("Norway".to_string())).unwrap_err(), "Could not determine location");
    assert_eq!(location_from_lookup("fail", Some("Oslo".to_string()), None).unwrap_err(), "Location detection failed");
    assert_eq!(location_label("Lima", "Peru"), "Lima, Peru");
}

#[test]
fn weather_url_needs_key() {
    assert_eq!(weather_request_url("", "Oslo").unwrap_err(), "Weather API key not configured");
    assert_eq!(
        weather_request_url("k1", "Oslo").unwrap(),
        "https://api.weatherapi.com/v1/current.json?key=k1&q=Oslo&aqi=no"
    );
}

#[test]
fn assistant_status() {
    let s = ollama_status(TagsOutcome::Models(vec!["llama3".to_string(), "phi".to_string()]));
    assert!(s.connected);
    assert_eq!(s.model.as_deref(), Some("llama3"));
    assert_eq!(s.error, None);
    let s = ollama_status(TagsOutcome::Models(vec![]));
    assert!(s.connected);
    assert_eq!(s.model, None);
    let s = ollama_status(TagsOutcome::Rejected(404));
    assert!(!s.connected);
    assert_eq!(s.error.as_deref(), Some("Server returned status: 404"));
    let s = ollama_status(TagsOutcome::Unreachable("refused".to_string()));
    assert!(!s.connected);
    assert_eq!(s.error.as_deref(), Some("Connection failed: refused"));
    let s = ollama_status(TagsOutcome::Unparsable("eof".to_string()));
    assert!(s.connected);
    assert_eq!(s.error.as_deref(), Some("Failed to parse response: eof"));
}

#[test]
fn assistant_urls_and_reply() {
    assert_eq!(tags_url("http://localhost:11434"), "http://localhost:11434/api/tags");
    assert_eq!(chat_url("http://localhost:11434"), "http://localhost:11434/api/chat");
    let m = chat_reply("assistant".to_string(), "hi".to_string());
    assert_eq!(m.role, "assistant");
    assert_eq!(m.content, "hi");
    assert!(m.timestamp.ends_with("+00:00"));
}

#[test]
fn weather_needs_key_and_location() {
    assert!(weather_wanted("k", "Oslo"));
    assert!(!weather_wanted("", "Oslo"));
    assert!(!weather_wanted("k", ""));
}
