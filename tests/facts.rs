use hello_rs::clock::{clock_icon, get_datetime, greeting, ordinal_day, time_text, LocalTime, TimeFormat};
use hello_rs::config::{get_hostname, Config, ConfigError, Field, RawConfig};
use hello_rs::packages::ManagerList;
use hello_rs::report::{get_cpu, get_song, report, song_command, Facts};
use hello_rs::weather::{degree_unit, get_weather, truncate_temp, weather_icon};
use unicode_segmentation::UnicodeSegmentation;

#[test]
fn ordinal_suffixes() {
    let cases = [(1, "1st"), (2, "2nd"), (3, "3rd"), (4, "4th"), (11, "11th"), (12, "12th"), (13, "13th"),
        (21, "21st"), (22, "22nd"), (23, "23rd"), (24, "24th"), (30, "30th"), (31, "31st")];
    for (d, s) in cases {
        assert_eq!(ordinal_day(d), s);
    }
}

#[test]
fn weather_icons() {
    assert_eq!(weather_icon("01d"), "☀️");
    assert_eq!(weather_icon("13n"), "🌨️");
    assert_eq!(weather_icon("99x"), "❓");
    assert_eq!(weather_icon("02n"), "🌙");
    assert_eq!(weather_icon("50d"), "🌫️");
}

#[test]
fn weather_row() {
    assert_eq!(degree_unit("imperial"), "F");
    assert_eq!(degree_unit("metric"), "C");
    assert_eq!(truncate_temp("21.73"), "21");
    assert_eq!(truncate_temp("-3.5"), "-3");
    assert_eq!(truncate_temp("104.2"), "104");
    assert_eq!(truncate_temp("7"), "7");
    assert_eq!(get_weather("10d", "Rain", "12.9", "metric"), "│ 🌧️ Rain 12°C");
}

#[test]
fn greetings_by_hour() {
    assert_eq!(greeting(6, "Ana"), "🌇 Good morning, Ana");
    assert_eq!(greeting(12, "Ana"), "🏙️ Good afternoon, Ana");
    assert_eq!(greeting(22, "Ana"), "🌆 Good evening, Ana");
    assert_eq!(greeting(23, "Ana"), "🌃 Good night, Ana");
    assert_eq!(greeting(5, "Ana"), "🌃 Good night, Ana");
}

#[test]
fn clock_texts() {
    assert_eq!(time_text(TimeFormat::Hours12, 15, 7), "3:07 PM");
    assert_eq!(time_text(TimeFormat::Hours12, 0, 30), "12:30 AM");
    assert_eq!(time_text(TimeFormat::Hours12, 12, 0), "12:00 PM");
    assert_eq!(time_text(TimeFormat::Hours24, 9, 5), "09:05");
    assert_eq!(time_text(TimeFormat::Off, 9, 5), "off");
    assert_eq!(TimeFormat::from_name("24h"), TimeFormat::Hours24);
    assert_eq!(TimeFormat::from_name("none"), TimeFormat::Off);
    assert_eq!(clock_icon(0), "🕛");
    assert_eq!(clock_icon(15), "🕒");
    assert_eq!(clock_icon(23), "🕚");
    let t = LocalTime { month: 3, day: 21, hour: 15, minute: 7 };
    assert_eq!(get_datetime(t, TimeFormat::Hours12), "│ 🕒 March 21st, 3:07 PM");
}

#[test]
fn songs() {
    assert_eq!(get_song("No players found\n", ""), "");
    assert_eq!(get_song("", "Artist - Title\n"), "Artist - Title");
    let long = format!("{}\n", "s".repeat(60));
    assert_eq!(get_song("", &long), format!("{}...", "s".repeat(37)));
    assert_eq!(song_command()[3], "{{ artist }} - {{ title }}");
    assert_eq!(get_cpu(57), "57% Used");
}

fn raw() -> RawConfig {
    RawConfig {
        name: Some("Ana".to_string()),
        hostname: Some("box".to_string()),
        location: Some("Lisbon".to_string()),
        units: Some("metric".to_string()),
        lang: Some("en".to_string()),
        api_key: Some("SECRET-REDACTED".to_string()),
        time_format: Some("24h".to_string()),
        song: None,
        package_managers: ManagerList::Unset,
    }
}

#[test]
fn config_requires_fields() {
    let c = Config::from_raw(raw()).unwrap();
    assert!(c.song);
    assert_eq!(get_hostname(&c), "box");
    let mut r = raw();
    r.song = Some(false);
    assert!(!Config::from_raw(r).unwrap().song);
    let mut r = raw();
    r.units = None;
    r.lang = None;
    assert_eq!(Config::from_raw(r).unwrap_err(), ConfigError::Missing(Field::Units));
    let mut r = raw();
    r.time_format = None;
    assert_eq!(Config::from_raw(r).unwrap_err(), ConfigError::Missing(Field::TimeFormat));
}

fn facts() -> Facts {
    Facts {
        hostname: "box".to_string(),
        name: "Ana".to_string(),
        time: LocalTime { month: 10, day: 2, hour: 9, minute: 41 },
        time_format: TimeFormat::Hours24,
        weather_code: "01d".to_string(),
        weather_condition: "Clear".to_string(),
        temperature: "21.4".to_string(),
        units: "metric".to_string(),
        release: "\"Arch Linux\"\n".to_string(),
        kernel: "Linux 6.1.0\n".to_string(),
        cpu: "12% Used".to_string(),
        memory: "3.2 GB".to_string(),
        disk: "120.5 GB".to_string(),
        desktop: "gnome".to_string(),
        updates: 6,
        packages: 812,
        song: "Artist - Title".to_string(),
    }
}

#[test]
fn full_report_lines_and_widths() {
    let lines = report(&facts());
    assert_eq!(lines.len(), 14);
    assert_eq!(lines[0].graphemes(true).count(), 56);
    for l in &lines[1..13] {
        assert_eq!(l.graphemes(true).count(), 46, "{}", l);
        assert!(l.starts_with("│ ") && l.ends_with("│"));
    }
    assert_eq!(lines[13], "╰─────────────────────────────────────────────╯");
    assert!(lines[1].starts_with("│ 🌇 Good morning, Ana! "));
    assert!(lines[2].starts_with("│ 🕘 October 2nd, 09:41 "));
    assert!(lines[3].starts_with("│ ☀️ Clear 21°C "));
    assert!(lines[4].starts_with("│ 💻 Arch Linux "));
    assert!(lines[9].starts_with("│ 🖥️ Gnome "));
    assert!(lines[10].starts_with("│ 6️⃣ 6 updates "));
    assert!(lines[11].starts_with("│ 📦 812 packages "));
    assert!(lines[12].starts_with("│ 🎵 Artist - Title "));
}

#[test]
fn report_drops_unconfigured_rows() {
    let mut f = facts();
    f.updates = -1;
    f.packages = -1;
    f.desktop = String::new();
    f.song = String::new();
    let lines = report(&f);
    assert_eq!(lines.len(), 10);
    assert!(lines.iter().all(|l| !l.contains("none")));
}
