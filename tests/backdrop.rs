use window_vibrancy::accent::{
    accent_policy, composition_attrib_data, set_window_composition_attribute, AccentPolicy,
    AccentState, CompositionAttribData,
};
use window_vibrancy::backdrop::{
    apply_acrylic, apply_blur, apply_mica, BackdropType, BlurBehind, Notice, WindowAttribute,
    WindowCall,
};
use window_vibrancy::version::{
    is_supported_win10, is_win11, is_win11_dwmsbt, is_win7, OsVersion,
};

fn ver(major: u32, minor: u32, build: u32) -> OsVersion {
    OsVersion { major, minor, build }
}

fn acrylic_accent() -> Vec<WindowCall> {
    vec![WindowCall::SetCompositionAttribute(AccentState::EnableAcrylicBlurBehind)]
}

fn acrylic_backdrop() -> Vec<WindowCall> {
    vec![WindowCall::SetWindowAttribute {
        attribute: WindowAttribute::SystemBackdropType,
        value: 3,
    }]
}

#[test]
fn version_predicates_at_thresholds() {
    assert!(is_win7(ver(6, 1, 7601)));
    assert!(!is_win7(ver(6, 2, 9200)));
    assert!(!is_win7(ver(10, 0, 19045)));
    assert!(!is_supported_win10(ver(10, 0, 17762)));
    assert!(is_supported_win10(ver(10, 0, 17763)));
    assert!(is_supported_win10(ver(10, 0, 21999)));
    assert!(!is_supported_win10(ver(10, 0, 22000)));
    assert!(!is_win11(ver(10, 0, 21999)));
    assert!(is_win11(ver(10, 0, 22000)));
    assert!(!is_win11_dwmsbt(ver(10, 0, 22522)));
    assert!(is_win11_dwmsbt(ver(10, 0, 22523)));
    assert!(is_win11_dwmsbt(ver(10, 0, u32::MAX)));
}

#[test]
fn classification_is_repeatable() {
    let a = ver(10, 0, 22000);
    let b = ver(10, 0, 22000);
    for _ in 0..3 {
        assert_eq!(is_win7(a), is_win7(b));
        assert_eq!(is_supported_win10(a), is_supported_win10(b));
        assert_eq!(is_win11(a), is_win11(b));
        assert_eq!(is_win11_dwmsbt(a), is_win11_dwmsbt(b));
    }
}

#[test]
fn unknown_version_is_in_no_tier() {
    let v = OsVersion::or_unknown(None);
    assert_eq!(v, ver(0, 0, 0));
    assert_eq!(v, OsVersion::unknown());
    assert!(!is_win7(v) && !is_supported_win10(v) && !is_win11(v) && !is_win11_dwmsbt(v));
    assert_eq!(
        apply_acrylic(v),
        vec![WindowCall::Notice(Notice::AcrylicUnsupported)]
    );
    assert_eq!(apply_mica(v, true), vec![WindowCall::Notice(Notice::MicaUnsupported)]);
}

#[test]
fn report_status_decides_version() {
    assert_eq!(OsVersion::from_report(0, 10, 0, 19045), Some(ver(10, 0, 19045)));
    assert_eq!(OsVersion::from_report(5, 6, 1, 7601), Some(ver(6, 1, 7601)));
    assert_eq!(OsVersion::from_report(-1, 10, 0, 19045), None);
    assert_eq!(OsVersion::from_report(i32::MIN, 10, 0, 22621), None);
    assert_eq!(OsVersion::or_unknown(Some(ver(10, 0, 22621))), ver(10, 0, 22621));
}

#[test]
fn acrylic_below_1809_only_warns() {
    for b in [0u32, 7601, 9200, 17134, 17762] {
        let calls = apply_acrylic(ver(10, 0, b));
        assert_eq!(calls, vec![WindowCall::Notice(Notice::AcrylicUnsupported)]);
    }
}

#[test]
fn acrylic_on_win10_uses_accent() {
    for b in [17763u32, 19041, 19045, 21999] {
        assert_eq!(apply_acrylic(ver(10, 0, b)), acrylic_accent());
    }
    assert_eq!(AccentState::EnableAcrylicBlurBehind.code(), 4);
}

#[test]
fn acrylic_on_early_win11_uses_accent() {
    for b in [22000u32, 22200, 22522] {
        assert_eq!(apply_acrylic(ver(10, 0, b)), acrylic_accent());
    }
}

#[test]
fn acrylic_on_backdrop_builds_is_documented() {
    for b in [22523u32, 22621, 26100, u32::MAX] {
        assert_eq!(apply_acrylic(ver(10, 0, b)), acrylic_backdrop());
    }
}

#[test]
fn mica_before_win11_only_warns() {
    for b in [0u32, 17763, 21999] {
        assert_eq!(apply_mica(ver(10, 0, b), false), vec![WindowCall::Notice(Notice::MicaUnsupported)]);
        assert_eq!(apply_mica(ver(10, 0, b), true), vec![WindowCall::Notice(Notice::MicaUnsupported)]);
    }
}

#[test]
fn mica_on_early_win11_uses_mica_attribute() {
    let calls = apply_mica(ver(10, 0, 22000), true);
    assert_eq!(
        calls,
        vec![
            WindowCall::SetWindowAttribute { attribute: WindowAttribute::UseImmersiveDarkMode, value: 1 },
            WindowCall::SetWindowAttribute { attribute: WindowAttribute::MicaEffect, value: 1 },
        ]
    );
}

#[test]
fn mica_on_backdrop_builds_uses_main_window() {
    let calls = apply_mica(ver(10, 0, 22621), false);
    assert_eq!(
        calls,
        vec![
            WindowCall::SetWindowAttribute { attribute: WindowAttribute::UseImmersiveDarkMode, value: 0 },
            WindowCall::SetWindowAttribute { attribute: WindowAttribute::SystemBackdropType, value: 2 },
        ]
    );
    let dark = apply_mica(ver(10, 0, 22621), true);
    assert_eq!(
        dark[0],
        WindowCall::SetWindowAttribute { attribute: WindowAttribute::UseImmersiveDarkMode, value: 1 }
    );
}

#[test]
fn blur_on_win7_uses_blur_behind() {
    assert_eq!(
        apply_blur(ver(6, 1, 7601)),
        vec![WindowCall::EnableBlurBehind(BlurBehind { flags: 1, enable: true })]
    );
}

#[test]
fn blur_elsewhere_uses_accent() {
    for v in [ver(6, 2, 9200), ver(10, 0, 19045), ver(10, 0, 22621), ver(0, 0, 0)] {
        assert_eq!(
            apply_blur(v),
            vec![WindowCall::SetCompositionAttribute(AccentState::EnableBlurBehind)]
        );
    }
    assert_eq!(AccentState::EnableBlurBehind.code(), 3);
}

#[test]
fn accent_policy_fields() {
    assert_eq!(
        accent_policy(AccentState::EnableAcrylicBlurBehind),
        AccentPolicy { accent_state: 4, accent_flags: 2, gradient_color: 0x001F1F1F, animation_id: 0 }
    );
    let data = composition_attrib_data(AccentState::EnableBlurBehind);
    assert_eq!(
        data,
        CompositionAttribData {
            attrib: 0x13,
            policy: AccentPolicy { accent_state: 3, accent_flags: 2, gradient_color: 2039583, animation_id: 0 },
            size: 16,
        }
    );
    assert_eq!(data.size, std::mem::size_of::<[u32; 4]>());
}

#[test]
fn composition_attribute_without_function_does_nothing() {
    assert_eq!(set_window_composition_attribute(false, AccentState::EnableBlurBehind), None);
    assert_eq!(set_window_composition_attribute(false, AccentState::EnableAcrylicBlurBehind), None);
    assert_eq!(
        set_window_composition_attribute(true, AccentState::EnableAcrylicBlurBehind),
        Some(composition_attrib_data(AccentState::EnableAcrylicBlurBehind))
    );
}

#[test]
fn attribute_and_backdrop_codes() {
    assert_eq!(WindowAttribute::UseImmersiveDarkMode.code(), 20);
    assert_eq!(WindowAttribute::SystemBackdropType.code(), 38);
    assert_eq!(WindowAttribute::MicaEffect.code(), 1029);
    assert_eq!(BackdropType::MainWindow.code(), 2);
    assert_eq!(BackdropType::TransientWindow.code(), 3);
    assert_eq!(BackdropType::TabbedWindow.code(), 4);
}

#[test]
fn notice_messages() {
    assert_eq!(
        Notice::AcrylicUnsupported.message(),
        "\"apply_acrylic\" is only available on Windows 10 v1809 or newer"
    );
    assert_eq!(Notice::MicaUnsupported.message(), "\"apply_mica\" is only available on Windows 11");
}
