use rog_core::error::ProfileError;
use rog_core::fan_attr::{
    bytes_eq, contains, enable_name, format_decimal, parse_decimal, Attribute, FanCurvePU,
};
use rog_core::fan_curve_set::{lookup, CurveData};
use rog_core::platform::PlatformPolicy;
use rog_core::profiles::FanCurveProfiles;
use rog_core::service::{service_problem, unit_active, unit_enabled, ServiceProblem};

fn attr(name: &str, value: &str) -> Attribute {
    Attribute {
        name: name.as_bytes().to_vec(),
        value: value.as_bytes().to_vec(),
    }
}

fn pairs(requests: &[Attribute]) -> Vec<(String, String)> {
    requests
        .iter()
        .map(|a| {
            (
                String::from_utf8(a.name.clone()).unwrap(),
                String::from_utf8(a.value.clone()).unwrap(),
            )
        })
        .collect()
}

/// A device with curves for the CPU and GPU fans.
fn device() -> Vec<Attribute> {
    let mut attrs = vec![attr("name", "asus_custom_fan_curve")];
    for fan in ["1", "2"] {
        attrs.push(attr(&format!("pwm{fan}_enable"), "2"));
        for point in 1..=8u32 {
            let base = if fan == "1" { 10 } else { 100 };
            attrs.push(attr(
                &format!("pwm{fan}_auto_point{point}_pwm"),
                &format!("{}", base + point),
            ));
            attrs.push(attr(
                &format!("pwm{fan}_auto_point{point}_temp"),
                &format!("{}", 30 + 5 * point),
            ));
        }
    }
    attrs
}

fn curve(fan: FanCurvePU, first_pwm: u8, enabled: bool) -> CurveData {
    let mut c = CurveData::new(fan);
    c.pwm[0] = first_pwm;
    c.enabled = enabled;
    c
}

#[test]
fn decimal_numbers() {
    assert_eq!(format_decimal(0), b"0");
    assert_eq!(format_decimal(7), b"7");
    assert_eq!(format_decimal(10), b"10");
    assert_eq!(format_decimal(99), b"99");
    assert_eq!(format_decimal(100), b"100");
    assert_eq!(format_decimal(205), b"205");
    assert_eq!(format_decimal(255), b"255");
    for value in 0..=255u8 {
        assert_eq!(parse_decimal(&format_decimal(value)), Some(value));
    }
    assert_eq!(parse_decimal(b"+42"), Some(42));
    assert_eq!(parse_decimal(b"007"), Some(7));
    assert_eq!(parse_decimal(b"0000000000000000000255"), Some(255));
    assert_eq!(parse_decimal(b"256"), None);
    assert_eq!(parse_decimal(b"99999999999999999999999"), None);
    assert_eq!(parse_decimal(b""), None);
    assert_eq!(parse_decimal(b"+"), None);
    assert_eq!(parse_decimal(b"-1"), None);
    assert_eq!(parse_decimal(b"12 "), None);
    assert_eq!(parse_decimal(b"1+2"), None);
    assert_eq!(parse_decimal(b"9999x"), None);
}

#[test]
fn searching_bytes() {
    assert!(contains(b"pwm1_enable", b"pwm1_enable"));
    assert!(contains(b"xpwm1_enabled", b"pwm1_enable"));
    assert!(contains(b"abc", b""));
    assert!(contains(b"", b""));
    assert!(contains(b"abc", b"c"));
    assert!(!contains(b"pwm1_enabl", b"pwm1_enable"));
    assert!(!contains(b"pwm2_enable", b"pwm1_enable"));
    assert!(!contains(b"", b"a"));
    assert!(bytes_eq(b"", b""));
    assert!(bytes_eq(b"abc", b"abc"));
    assert!(!bytes_eq(b"abc", b"abd"));
    assert!(!bytes_eq(b"abc", b"ab"));
}

#[test]
fn attribute_names() {
    assert_eq!(enable_name(FanCurvePU::CPU), b"pwm1_enable");
    assert_eq!(enable_name(FanCurvePU::GPU), b"pwm2_enable");
    assert_eq!(enable_name(FanCurvePU::MID), b"pwm3_enable");
    assert_eq!(FanCurvePU::CPU.digit(), b'1');
    assert_eq!(FanCurvePU::MID.to_char(), '3');
    assert_eq!(FanCurvePU::default(), FanCurvePU::CPU);
}

#[test]
fn fan_names() {
    assert_eq!(FanCurvePU::CPU.name(), "cpu");
    assert_eq!(FanCurvePU::GPU.name(), "gpu");
    assert_eq!(FanCurvePU::MID.name(), "mid");
    assert_eq!(FanCurvePU::from_str("cpu"), Ok(FanCurvePU::CPU));
    assert_eq!(FanCurvePU::from_str("  GPU\n"), Ok(FanCurvePU::GPU));
    assert_eq!(FanCurvePU::from_str("Mid"), Ok(FanCurvePU::MID));
    assert_eq!(
        FanCurvePU::from_str("fan"),
        Err(ProfileError::ParseProfileName)
    );
    assert_eq!(FanCurvePU::from_str(""), Err(ProfileError::ParseProfileName));
    assert_eq!(
        FanCurvePU::from_name(" cpu"),
        Err(ProfileError::ParseProfileName)
    );
    assert_eq!(
        FanCurvePU::from_name("CPU"),
        Err(ProfileError::ParseProfileName)
    );
}

#[test]
fn which_fans_follow_the_enable_attributes() {
    assert_eq!(
        FanCurvePU::which_fans(&device()),
        vec![FanCurvePU::CPU, FanCurvePU::GPU]
    );
    assert_eq!(FanCurvePU::which_fans(&vec![]), vec![]);
    // A fan is listed once, and only for the attribute of exactly its name.
    let odd = vec![
        attr("pwm3_enable", "2"),
        attr("old_pwm1_enable", "2"),
        attr("pwm1_enable", "2"),
        attr("pwm1_enablex", "2"),
        attr("pwm1_enable", "1"),
        attr("pwm2_enabl", "2"),
    ];
    assert_eq!(
        FanCurvePU::which_fans(&odd),
        vec![FanCurvePU::CPU, FanCurvePU::MID]
    );
    let near = vec![
        attr("pwm1_enablex", "2"),
        attr("xpwm2_enable", "2"),
        attr("PWM3_ENABLE", "2"),
    ];
    assert_eq!(FanCurvePU::which_fans(&near), vec![]);
    let all = vec![
        attr("pwm3_enable", "2"),
        attr("pwm2_enable", "2"),
        attr("pwm1_enable", "2"),
    ];
    assert_eq!(
        FanCurvePU::which_fans(&all),
        vec![FanCurvePU::CPU, FanCurvePU::GPU, FanCurvePU::MID]
    );
    let mut profiles = FanCurveProfiles::default();
    profiles
        .read_from_dev_profile(PlatformPolicy::Quiet, Some(&odd))
        .unwrap();
    assert_eq!(profiles.quiet.len(), 2);
    assert_eq!(
        pairs(&FanCurveProfiles::set_active_curve_to_defaults(Some(&odd)).unwrap()),
        vec![
            ("pwm1_enable".to_string(), "3".to_string()),
            ("pwm3_enable".to_string(), "3".to_string()),
        ]
    );
    assert_eq!(
        FanCurveProfiles::supported_fans(Some(&device())),
        Ok(vec![FanCurvePU::CPU, FanCurvePU::GPU])
    );
    assert_eq!(
        FanCurveProfiles::supported_fans(None),
        Err(ProfileError::NotSupported)
    );
}

#[test]
fn lookup_takes_the_first_of_a_name() {
    let attrs = vec![attr("a", "1"), attr("b", "2"), attr("a", "3")];
    assert_eq!(lookup(&attrs, b"a"), Some(&b"1".to_vec()));
    assert_eq!(lookup(&attrs, b"b"), Some(&b"2".to_vec()));
    assert_eq!(lookup(&attrs, b"c"), None);
}

#[test]
fn curve_is_read_from_the_device() {
    let mut c = CurveData::new(FanCurvePU::GPU);
    c.enabled = true;
    c.read_from_device(&device());
    assert_eq!(c.fan, FanCurvePU::GPU);
    assert!(c.enabled);
    assert_eq!(c.pwm, [101, 102, 103, 104, 105, 106, 107, 108]);
    assert_eq!(c.temp, [35, 40, 45, 50, 55, 60, 65, 70]);

    // Points without an attribute, or with one that holds no number, stay.
    let mut c = CurveData::new(FanCurvePU::MID);
    c.pwm = [1, 2, 3, 4, 5, 6, 7, 8];
    c.temp = [9; 8];
    let attrs = vec![
        attr("pwm3_auto_point2_pwm", "200"),
        attr("pwm3_auto_point3_pwm", "300"),
        attr("pwm3_auto_point4_pwm", ""),
        attr("pwm3_auto_point8_temp", "77"),
        attr("pwm3_auto_point9_temp", "78"),
        attr("pwm1_auto_point1_temp", "79"),
    ];
    c.read_from_device(&attrs);
    assert_eq!(c.pwm, [1, 200, 3, 4, 5, 6, 7, 8]);
    assert_eq!(c.temp, [9, 9, 9, 9, 9, 9, 9, 77]);
}

#[test]
fn curve_is_written_points_first_and_enable_last() {
    let mut c = CurveData::new(FanCurvePU::CPU);
    c.pwm = [0, 5, 10, 50, 100, 150, 200, 255];
    c.temp = [30, 40, 50, 60, 70, 80, 90, 100];
    c.enabled = true;
    let requests = pairs(&c.write_to_device());
    assert_eq!(requests.len(), 17);
    let pwm = ["0", "5", "10", "50", "100", "150", "200", "255"];
    let temp = ["30", "40", "50", "60", "70", "80", "90", "100"];
    for i in 0..8 {
        assert_eq!(
            requests[i],
            (format!("pwm1_auto_point{}_pwm", i + 1), pwm[i].to_string())
        );
        assert_eq!(
            requests[8 + i],
            (format!("pwm1_auto_point{}_temp", i + 1), temp[i].to_string())
        );
    }
    assert_eq!(requests[16], ("pwm1_enable".to_string(), "1".to_string()));

    c.enabled = false;
    c.set_fan(FanCurvePU::MID);
    let requests = pairs(&c.write_to_device());
    assert_eq!(requests[0].0, "pwm3_auto_point1_pwm");
    assert_eq!(requests[16], ("pwm3_enable".to_string(), "2".to_string()));

    // What was written is read back.
    let mut back = CurveData::new(FanCurvePU::MID);
    back.read_from_device(&c.write_to_device());
    assert_eq!(back.pwm, c.pwm);
    assert_eq!(back.temp, c.temp);
}

#[test]
fn reading_replaces_the_curves_of_one_policy() {
    let mut profiles = FanCurveProfiles::default();
    profiles.quiet = vec![curve(FanCurvePU::MID, 1, true)];
    profiles.balanced = vec![curve(FanCurvePU::CPU, 2, true)];
    assert_eq!(
        profiles.read_from_dev_profile(PlatformPolicy::Balanced, Some(&device())),
        Ok(())
    );
    assert_eq!(profiles.balanced.len(), 2);
    assert_eq!(profiles.balanced[0].fan, FanCurvePU::CPU);
    assert_eq!(profiles.balanced[0].pwm, [11, 12, 13, 14, 15, 16, 17, 18]);
    assert_eq!(profiles.balanced[0].temp, [35, 40, 45, 50, 55, 60, 65, 70]);
    assert_eq!(profiles.balanced[1].fan, FanCurvePU::GPU);
    assert_eq!(profiles.balanced[1].pwm[7], 108);
    assert!(profiles.balanced.iter().all(|c| !c.enabled));
    assert_eq!(profiles.quiet, vec![curve(FanCurvePU::MID, 1, true)]);
    assert!(profiles.performance.is_empty());

    assert_eq!(
        profiles.read_from_dev_profile(PlatformPolicy::Quiet, None),
        Err(ProfileError::NotSupported)
    );
    assert_eq!(profiles.quiet, vec![curve(FanCurvePU::MID, 1, true)]);
}

#[test]
fn reset_asks_for_the_defaults_and_the_next_reading_switches_curves_off() {
    let mut profiles = FanCurveProfiles::default();
    profiles.balanced = vec![curve(FanCurvePU::CPU, 9, true)];
    let requests = FanCurveProfiles::set_active_curve_to_defaults(Some(&device())).unwrap();
    assert_eq!(
        pairs(&requests),
        vec![
            ("pwm1_enable".to_string(), "3".to_string()),
            ("pwm2_enable".to_string(), "3".to_string()),
        ]
    );
    assert_eq!(
        FanCurveProfiles::set_active_curve_to_defaults(None).err(),
        Some(ProfileError::NotSupported)
    );
    // The caller makes the writes; the platform then shows its own curve.
    profiles
        .read_from_dev_profile(PlatformPolicy::Balanced, Some(&device()))
        .unwrap();
    let cpu = profiles
        .get_fan_curve_for(&PlatformPolicy::Balanced, FanCurvePU::CPU)
        .unwrap();
    assert!(!cpu.enabled);
    assert_eq!(cpu.pwm[0], 11);
}

#[test]
fn all_curves_of_a_policy_are_written() {
    let mut profiles = FanCurveProfiles::default();
    profiles.performance = vec![
        curve(FanCurvePU::CPU, 1, false),
        curve(FanCurvePU::GPU, 2, true),
    ];
    let requests = pairs(&profiles.write_profile_curve_to_platform(PlatformPolicy::Performance));
    assert_eq!(requests.len(), 34);
    assert_eq!(
        requests[0],
        ("pwm1_auto_point1_pwm".to_string(), "1".to_string())
    );
    assert_eq!(requests[16], ("pwm1_enable".to_string(), "2".to_string()));
    assert_eq!(
        requests[17],
        ("pwm2_auto_point1_pwm".to_string(), "2".to_string())
    );
    assert_eq!(requests[33], ("pwm2_enable".to_string(), "1".to_string()));
    assert!(profiles
        .write_profile_curve_to_platform(PlatformPolicy::Quiet)
        .is_empty());
}

#[test]
fn enabling_curves() {
    let mut profiles = FanCurveProfiles::default();
    profiles.balanced = vec![
        curve(FanCurvePU::CPU, 1, false),
        curve(FanCurvePU::GPU, 2, false),
        curve(FanCurvePU::GPU, 3, false),
    ];
    profiles.quiet = vec![curve(FanCurvePU::GPU, 4, false)];
    profiles.set_profile_fan_curve_enabled(PlatformPolicy::Balanced, FanCurvePU::GPU, true);
    assert_eq!(
        profiles.balanced,
        vec![
            curve(FanCurvePU::CPU, 1, false),
            curve(FanCurvePU::GPU, 2, true),
            curve(FanCurvePU::GPU, 3, false),
        ]
    );
    assert_eq!(profiles.quiet, vec![curve(FanCurvePU::GPU, 4, false)]);
    profiles.set_profile_fan_curve_enabled(PlatformPolicy::Balanced, FanCurvePU::MID, true);
    assert_eq!(profiles.balanced[0], curve(FanCurvePU::CPU, 1, false));
    profiles.set_profile_curves_enabled(PlatformPolicy::Balanced, true);
    assert!(profiles.balanced.iter().all(|c| c.enabled));
    assert_eq!(profiles.balanced[2].pwm[0], 3);
    assert_eq!(profiles.quiet, vec![curve(FanCurvePU::GPU, 4, false)]);
    profiles.set_profile_curves_enabled(PlatformPolicy::Balanced, false);
    assert!(profiles.balanced.iter().all(|c| !c.enabled));
    profiles.set_profile_curves_enabled(PlatformPolicy::Performance, true);
    assert!(profiles.performance.is_empty());
}

#[test]
fn finding_curves() {
    let mut profiles = FanCurveProfiles::default();
    profiles.quiet = vec![
        curve(FanCurvePU::GPU, 1, false),
        curve(FanCurvePU::CPU, 2, true),
        curve(FanCurvePU::GPU, 3, true),
    ];
    assert_eq!(profiles.get_fan_curves_for(PlatformPolicy::Quiet).len(), 3);
    assert!(profiles
        .get_fan_curves_for(PlatformPolicy::Balanced)
        .is_empty());
    assert_eq!(
        profiles.get_fan_curve_for(&PlatformPolicy::Quiet, FanCurvePU::GPU),
        Some(&curve(FanCurvePU::GPU, 1, false))
    );
    assert_eq!(
        profiles.get_fan_curve_for(&PlatformPolicy::Quiet, FanCurvePU::CPU),
        Some(&curve(FanCurvePU::CPU, 2, true))
    );
    assert_eq!(
        profiles.get_fan_curve_for(&PlatformPolicy::Quiet, FanCurvePU::MID),
        None
    );
    assert_eq!(
        profiles.get_fan_curve_for(&PlatformPolicy::Performance, FanCurvePU::CPU),
        None
    );
}

#[test]
fn saving_a_curve_replaces_the_first_of_its_fan() {
    let mut profiles = FanCurveProfiles::default();
    profiles.performance = vec![
        curve(FanCurvePU::CPU, 1, false),
        curve(FanCurvePU::GPU, 2, false),
        curve(FanCurvePU::GPU, 3, false),
    ];
    assert_eq!(
        profiles.save_fan_curve(curve(FanCurvePU::GPU, 99, true), PlatformPolicy::Performance),
        Ok(())
    );
    assert_eq!(
        profiles.performance,
        vec![
            curve(FanCurvePU::CPU, 1, false),
            curve(FanCurvePU::GPU, 99, true),
            curve(FanCurvePU::GPU, 3, false),
        ]
    );
}

#[test]
fn saving_a_curve_of_an_absent_fan_changes_nothing() {
    let mut profiles = FanCurveProfiles::default();
    let before = vec![
        curve(FanCurvePU::CPU, 1, false),
        curve(FanCurvePU::GPU, 2, true),
    ];
    profiles.balanced = before.clone();
    assert_eq!(
        profiles.save_fan_curve(curve(FanCurvePU::MID, 50, true), PlatformPolicy::Balanced),
        Ok(())
    );
    assert_eq!(profiles.balanced.len(), 2);
    assert_eq!(profiles.balanced, before);
    assert_eq!(
        profiles.save_fan_curve(curve(FanCurvePU::CPU, 50, true), PlatformPolicy::Quiet),
        Ok(())
    );
    assert!(profiles.quiet.is_empty());
    assert_eq!(profiles.balanced, before);
}

#[test]
fn policies() {
    assert_eq!(PlatformPolicy::Balanced.next(), PlatformPolicy::Performance);
    assert_eq!(PlatformPolicy::Performance.next(), PlatformPolicy::Quiet);
    assert_eq!(PlatformPolicy::Quiet.next(), PlatformPolicy::Balanced);
    assert_eq!(
        PlatformPolicy::list(),
        [
            PlatformPolicy::Balanced,
            PlatformPolicy::Performance,
            PlatformPolicy::Quiet
        ]
    );
    for policy in PlatformPolicy::list() {
        assert_eq!(PlatformPolicy::from(u8::from(policy)), policy);
    }
    assert_eq!(u8::from(PlatformPolicy::Quiet), 2);
    assert_eq!(PlatformPolicy::from(9), PlatformPolicy::Balanced);
    assert_eq!(PlatformPolicy::default(), PlatformPolicy::Balanced);
}

#[test]
fn editing_the_points_of_a_curve() {
    let mut c = CurveData::new(FanCurvePU::CPU);
    c.temp = [30, 40, 50, 60, 70, 80, 90, 100];
    c.pwm = [0, 51, 102, 128, 153, 204, 254, 255];
    assert_eq!(c.nearest_point(30), 0);
    assert_eq!(c.nearest_point(34), 0);
    assert_eq!(c.nearest_point(35), 0);
    assert_eq!(c.nearest_point(36), 1);
    assert_eq!(c.nearest_point(97), 7);
    assert_eq!(c.nearest_point(1000), 0);
    assert_eq!(c.nearest_point(354), 7);
    assert_eq!(c.nearest_point(355), 0);
    assert_eq!(c.nearest_point(-224), 0);
    assert_eq!(c.nearest_point(-225), 0);
    assert_eq!(c.nearest_point(i32::MIN), 0);
    assert_eq!(c.nearest_point(i32::MAX), 0);
    assert_eq!(c.pwm_percent(0), Some(0));
    assert_eq!(c.pwm_percent(1), Some(20));
    assert_eq!(c.pwm_percent(3), Some(50));
    assert_eq!(c.pwm_percent(6), Some(99));
    assert_eq!(c.pwm_percent(7), Some(100));
    assert_eq!(c.pwm_percent(8), None);
    assert!(c.set_point(2, 55, 110));
    assert_eq!(c.temp, [30, 40, 55, 60, 70, 80, 90, 100]);
    assert_eq!(c.pwm, [0, 51, 110, 128, 153, 204, 254, 255]);
    assert!(!c.set_point(8, 1, 1));
    assert_eq!(c.temp, [30, 40, 55, 60, 70, 80, 90, 100]);
    assert_eq!(c.fan, FanCurvePU::CPU);
}

#[test]
fn answers_of_the_service_manager() {
    assert!(unit_active(b"active\n"));
    assert!(unit_active(b""));
    assert!(!unit_active(b"inactive\n"));
    assert!(!unit_active(b"failed\n"));
    assert!(!unit_active(b"the unit has failed"));
    assert!(unit_enabled(b"enabled\n"));
    assert!(unit_enabled(b"enabled-runtime\n"));
    assert!(!unit_enabled(b"disabled\n"));
    assert!(!unit_enabled(b""));
    assert_eq!(service_problem(true, false, true), None);
    assert_eq!(
        service_problem(true, false, false),
        Some(ServiceProblem::NotRunning)
    );
    assert_eq!(
        service_problem(false, false, true),
        Some(ServiceProblem::NotEnabled)
    );
    assert_eq!(
        service_problem(false, false, false),
        Some(ServiceProblem::NotEnabled)
    );
    assert_eq!(
        service_problem(false, true, false),
        Some(ServiceProblem::NotRunning)
    );
    assert_eq!(service_problem(false, true, true), None);
}
