use pikadick::commands::system::{
    core_count,
    format_uptime,
    system_fields,
    CpuFrequencyText,
    SystemReport,
};
use pikadick::commands::twitterify::twitterify_str;
use pikadick::commands::uwuify::{
    face,
    uwuify_str,
    uwuify_with_face,
};
use pikadick::commands::vaporwave::vaporwave_str;

#[test]
fn twitterify_known_phrases() {
    assert_eq!(twitterify_str("you are wrong"), "wrong but go off");
    assert_eq!(twitterify_str("You Are Wrong"), "wrong but go off");
    assert_eq!(twitterify_str("your wrong"), "wrong but go off");
    assert_eq!(twitterify_str("you're wrong"), "wrong but go off");
    assert_eq!(twitterify_str("I AGREE"), "PERIOD QUEEN 👑");
}

#[test]
fn twitterify_words_and_endings() {
    assert_eq!(twitterify_str("hello sister"), "hello sis 💅");
    assert_eq!(twitterify_str("sweetie sister."), "sweaty sister. PERIODOT");
    assert_eq!(twitterify_str("my sweetie is here."), "my sweaty is here. PERIODOT");
    assert_eq!(twitterify_str(""), " 💅");
    assert_eq!(twitterify_str("a  b"), "a  b 💅");
}

#[test]
fn vaporwave_widens_latin_text() {
    assert_eq!(vaporwave_str("hi"), "ｈｉ");
    assert_eq!(vaporwave_str("A b!"), "Ａ ｂ！");
    assert_eq!(vaporwave_str("\u{10E}"), "\u{FFEE}");
    assert_eq!(vaporwave_str("\u{10F}é"), " \u{FFC9}");
    assert_eq!(vaporwave_str(""), "");
}

#[test]
fn uwuify_with_a_chosen_face() {
    assert_eq!(uwuify_with_face("Hello World!", "owo"), "Hewwo Wowwd owo ");
    assert_eq!(uwuify_with_face("I love nano!!!", "UwU"), "I wuv nyanyo UwU ");
    assert_eq!(uwuify_with_face("NO Na ne", ">w<"), "NyO Nya nye");
    assert_eq!(uwuify_with_face("!a!!b", "x"), " x a x b");
    assert_eq!(uwuify_with_face("", "x"), "");
}

#[test]
fn uwuify_uses_one_of_the_faces() {
    let faces: Vec<&str> = (0..6).map(face).collect();
    assert_eq!(faces, vec!["(・`ω´・)", ";;w;;", "owo", "UwU", ">w<", "^w^"]);
    let out = uwuify_str("really lovely!");
    assert!(faces
        .iter()
        .any(|f| out == format!("weawwy wuvwy {} ", f)));
}

#[test]
fn uwuify_leaves_no_r_l_or_bang() {
    for input in ["Rolling Lorries!!", "rrr lll RRR LLL !!!", "plain"] {
        let out = uwuify_str(input);
        assert!(!out.contains(['r', 'l', 'R', 'L', '!']), "{}", out);
    }
}

#[test]
fn uptime_in_words() {
    assert_eq!(format_uptime(90061), "1 day 1 hour 1 minute 1 second");
    assert_eq!(format_uptime(2 * 86400 + 3 * 3600 + 4 * 60 + 5), "2 days 3 hours 4 minutes 5 seconds");
    assert_eq!(format_uptime(86400), "1 day");
    assert_eq!(format_uptime(7205), " 2 hours 5 seconds");
    assert_eq!(format_uptime(0), "");
    assert_eq!(format_uptime(59), " 59 seconds");
}

#[test]
fn cpu_core_count_text() {
    assert_eq!(core_count(Some(8), Some(4)).as_deref(), Some("8 logical, 4 physical"));
    assert_eq!(core_count(Some(8), None).as_deref(), Some("8 logical"));
    assert_eq!(core_count(None, Some(4)).as_deref(), Some("4 physical"));
    assert_eq!(core_count(None, None), None);
}

fn fields(report: &SystemReport) -> Vec<(String, String)> {
    system_fields(report)
}

#[test]
fn system_status_fields_in_order() {
    let report = SystemReport {
        hostname: Some("host".into()),
        system_name: Some("Linux".into()),
        system_version: None,
        architecture: Some(None),
        boot_time: None,
        uptime_secs: Some(61),
        cpu_frequency: Some(CpuFrequencyText {
            current: "2.00 GHz".into(),
            min: None,
            max: Some("3.00 GHz".into()),
        }),
        cpu_logical_count: Some(4),
        cpu_physical_count: None,
        memory_usage: Some("1.00 GB / 2.00 GB".into()),
        swap_usage: None,
        virtualization: None,
        cpu_usage: None,
        cpu_temp: Some("40 °C".into()),
    };
    let expected: Vec<(String, String)> = vec![
        ("Hostname", "host"),
        ("OS", "Linux"),
        ("Architecture", "unknown"),
        ("Uptime", " 1 minute 1 second"),
        ("Cpu Freq", "2.00 GHz"),
        ("Max Cpu Freq", "3.00 GHz"),
        ("Cpu Core Count", "4 logical"),
        ("Memory Usage", "1.00 GB / 2.00 GB"),
        ("Virtualization", "None"),
        ("Cpu Temp", "40 °C"),
    ]
    .into_iter()
    .map(|(a, b)| (a.to_string(), b.to_string()))
    .collect();
    assert_eq!(fields(&report), expected);
}

#[test]
fn system_status_with_nothing_known() {
    let report = SystemReport {
        hostname: None,
        system_name: None,
        system_version: None,
        architecture: None,
        boot_time: None,
        uptime_secs: None,
        cpu_frequency: None,
        cpu_logical_count: None,
        cpu_physical_count: None,
        memory_usage: None,
        swap_usage: None,
        virtualization: Some("kvm".into()),
        cpu_usage: None,
        cpu_temp: None,
    };
    assert_eq!(
        fields(&report),
        vec![("Virtualization".to_string(), "kvm".to_string())]
    );
}

#[test]
fn uwuify_around_one_bang() {
    assert_eq!(uwuify_with_face("wow!x", "owo"), "wow owo x");
    for (a, b) in [("hello", "lovely"), ("", "nano"), ("move", ""), ("Nn", "ove")] {
        let whole = uwuify_with_face(&format!("{a}!{b}"), ">w<");
        let parts = format!(
            "{} >w< {}",
            uwuify_with_face(a, ">w<"),
            uwuify_with_face(b, ">w<")
        );
        assert_eq!(whole, parts);
    }
}
