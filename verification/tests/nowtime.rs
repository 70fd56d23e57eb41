use transr::func::nowtime::greeting;
use transr::func::nowtime::greeting_for;
use transr::func::nowtime::NowTime;

fn reading(hour: u32, weekday: &str) -> NowTime {
    NowTime {
        year: 2024,
        month: 3,
        day: 9,
        hour,
        minute: 5,
        second: 7,
        weekday: weekday.to_string(),
        iso_week: 10,
        formatted: "2024-03-09 00:05:07".to_string(),
    }
}

#[test]
fn parts_of_the_day_meet_at_their_borders() {
    let periods: Vec<String> = (0..24).map(|h| reading(h, "Mon").time_of_day()).collect();
    for h in 0..24usize {
        let expected = if (5..12).contains(&h) {
            "Morning"
        } else if (12..17).contains(&h) {
            "Afternoon"
        } else if (17..21).contains(&h) {
            "Evening"
        } else {
            "Night"
        };
        assert_eq!(periods[h], expected);
    }
    assert!(reading(5, "Mon").is_morning());
    assert!(!reading(4, "Mon").is_morning());
    assert!(reading(11, "Mon").is_morning());
    assert!(reading(12, "Mon").is_afternoon());
    assert!(reading(16, "Mon").is_afternoon());
    assert!(reading(17, "Mon").is_evening());
    assert!(reading(20, "Mon").is_evening());
    assert!(reading(21, "Mon").is_night());
    assert!(reading(0, "Mon").is_night());
    assert!(reading(4, "Mon").is_night());
    assert!(!reading(5, "Mon").is_night());
    assert_eq!(reading(99, "Mon").time_of_day(), "Night");
}

#[test]
fn weekend_is_saturday_and_sunday() {
    assert!(reading(1, "Sat").is_weekend());
    assert!(reading(1, "Sun").is_weekend());
    for day in ["Mon", "Tue", "Wed", "Thu", "Fri", "sat", ""] {
        assert!(!reading(1, day).is_weekend());
    }
}

#[test]
fn month_names() {
    let names = ["Jan", "Feb", "Mar", "Apr", "May", "Jun", "Jul", "Aug", "Sep", "Oct", "Nov", "Dec"];
    for (i, name) in names.iter().enumerate() {
        let mut r = reading(1, "Mon");
        r.month = i as u32 + 1;
        assert_eq!(r.month_name(), *name);
    }
    let mut r = reading(1, "Mon");
    r.month = 0;
    assert_eq!(r.month_name(), "Unknown");
    r.month = 13;
    assert_eq!(r.month_name(), "Unknown");
}

#[test]
fn reading_as_one_line() {
    assert_eq!(reading(14, "Sat").to_string(), "Sat Mar 9, 2024 14:5:7 (Afternoon)");
    let mut old = reading(3, "Tue");
    old.year = -44;
    old.month = 15;
    assert_eq!(old.to_string(), "Tue Unknown 9, -44 3:5:7 (Night)");
}

#[test]
fn greetings() {
    assert_eq!(greeting_for("Morning"), "☀️  Good Morning!");
    assert_eq!(greeting_for("Afternoon"), "🌤️  Good Afternoon!");
    assert_eq!(greeting_for("Evening"), "🌆 Good Evening!");
    assert_eq!(greeting_for("Night"), "🌙 Good Night!");
    assert_eq!(greeting_for("Noon"), "👋 Hello!");
    let now = greeting();
    assert!(["☀️  Good Morning!", "🌤️  Good Afternoon!", "🌆 Good Evening!", "🌙 Good Night!"]
        .contains(&now.as_str()));
}

#[test]
fn now_reads_fields_in_their_ranges() {
    for now in [NowTime::now(), NowTime::utc()] {
        assert!((1..=12).contains(&now.month));
        assert!((1..=31).contains(&now.day));
        assert!(now.hour <= 23);
        assert!(now.minute <= 59);
        assert!(now.second <= 59);
        assert!((1..=53).contains(&now.iso_week));
        assert!(["Mon", "Tue", "Wed", "Thu", "Fri", "Sat", "Sun"].contains(&now.weekday.as_str()));
        assert!(now.year >= 2024);
        let stamp = format!(
            "{:04}-{:02}-{:02} {:02}:{:02}:{:02}",
            now.year, now.month, now.day, now.hour, now.minute, now.second
        );
        assert!(now.formatted.starts_with(&stamp));
    }
    assert!(NowTime::utc().formatted.ends_with(" UTC"));
    assert_eq!(NowTime::now().formatted.len(), 19);
}

#[test]
fn custom_format_renders_or_refuses() {
    let now = NowTime::now();
    let year = now.custom_format("%Y").unwrap();
    assert_eq!(year.len(), 4);
    assert_eq!(now.custom_format("plain"), Some("plain".to_string()));
    assert_eq!(now.custom_format("%Q"), None);
    assert_eq!(now.custom_format("%Y-%Q"), None);
    assert_eq!(now.custom_format("%!"), None);
    assert_eq!(now.custom_format("100%%"), Some("100%".to_string()));
    assert_eq!(now.custom_format(""), Some(String::new()));
    assert_eq!(now.custom_format("%Y-%m-%d").unwrap().len(), 10);
}
