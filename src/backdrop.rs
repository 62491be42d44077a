//! Which compositor calls apply blur, acrylic or Mica to a window, per version.
use vstd::prelude::*;

use crate::accent::AccentState;
use crate::version::{
    is_supported_win10, is_win11, is_win11_dwmsbt, is_win7, supported_win10, win11,
    win11_backdrop_capable, win7, OsVersion, WIN10_1809_BUILD, WIN11_BACKDROP_BUILD, WIN11_BUILD,
};

verus! {

/// Blur-behind flag: the `enable` field of the descriptor is set.
pub const BLUR_BEHIND_ENABLE: u32 = 1;

/// A documented window attribute of the desktop window manager.
#[derive(Clone, Copy, Debug, PartialEq, Eq, Structural)]
pub enum WindowAttribute {
    /// Dark title bar (attribute 20).
    UseImmersiveDarkMode,
    /// System backdrop material (attribute 38).
    SystemBackdropType,
    /// Mica on early Windows 11 builds, undocumented (attribute 1029).
    MicaEffect,
}

impl WindowAttribute {
    pub open spec fn spec_code(self) -> i32 {
        match self {
            WindowAttribute::UseImmersiveDarkMode => 20,
            WindowAttribute::SystemBackdropType => 38,
            WindowAttribute::MicaEffect => 1029,
        }
    }

    /// The attribute number that the system expects.
    pub fn code(&self) -> (r: i32)
        ensures
            r == self.spec_code(),
    {
        match self {
            WindowAttribute::UseImmersiveDarkMode => 20,
            WindowAttribute::SystemBackdropType => 38,
            WindowAttribute::MicaEffect => 1029,
        }
    }
}

/// A value of the system backdrop attribute.
#[derive(Clone, Copy, Debug, PartialEq, Eq, Structural)]
pub enum BackdropType {
    /// Mica (value 2).
    MainWindow,
    /// Acrylic (value 3).
    TransientWindow,
    /// Tabbed (value 4).
    TabbedWindow,
}

impl BackdropType {
    pub open spec fn spec_code(self) -> i32 {
        match self {
            BackdropType::MainWindow => 2,
            BackdropType::TransientWindow => 3,
            BackdropType::TabbedWindow => 4,
        }
    }

    /// The attribute value that the system expects.
    pub fn code(&self) -> (r: i32)
        ensures
            r == self.spec_code(),
    {
        match self {
            BackdropType::MainWindow => 2,
            BackdropType::TransientWindow => 3,
            BackdropType::TabbedWindow => 4,
        }
    }
}

/// The blur-behind descriptor, with no blur region: the whole window blurs.
#[derive(Clone, Copy, Debug, PartialEq, Eq, Structural)]
pub struct BlurBehind {
    pub flags: u32,
    pub enable: bool,
}

/// A warning that an effect is not available on the running system.
#[derive(Clone, Copy, Debug, PartialEq, Eq, Structural)]
pub enum Notice {
    AcrylicUnsupported,
    MicaUnsupported,
}

impl Notice {
    /// The line written to the error stream for this warning.
    pub fn message(&self) -> (r: &'static str)
        ensures
            r@ == (match self {
                Notice::AcrylicUnsupported => "\"apply_acrylic\" is only available on Windows 10 v1809 or newer"@,
                Notice::MicaUnsupported => "\"apply_mica\" is only available on Windows 11"@,
            }),
    {
        match self {
            Notice::AcrylicUnsupported => "\"apply_acrylic\" is only available on Windows 10 v1809 or newer",
            Notice::MicaUnsupported => "\"apply_mica\" is only available on Windows 11",
        }
    }
}

/// One step of applying an effect, for the caller to perform in order.
#[derive(Clone, Copy, Debug, PartialEq, Eq, Structural)]
pub enum WindowCall {
    /// The documented blur-behind call with this descriptor.
    EnableBlurBehind(BlurBehind),
    /// The undocumented composition attribute call with the accent policy for
    /// this state; nothing happens where that function cannot be resolved.
    SetCompositionAttribute(AccentState),
    /// The documented window attribute call with a four-byte value.
    SetWindowAttribute { attribute: WindowAttribute, value: i32 },
    /// No call: the warning is written to the error stream.
    Notice(Notice),
}

/// The four-byte boolean that the window attribute call takes.
pub open spec fn bool_value(b: bool) -> i32 {
    if b {
        1
    } else {
        0
    }
}

/// Whether a step is the undocumented composition attribute call.
pub open spec fn is_composition_call(c: WindowCall) -> bool {
    c is SetCompositionAttribute
}

/// Whether a step sets the system backdrop attribute or the older Mica attribute.
pub open spec fn is_backdrop_call(c: WindowCall) -> bool {
    c matches WindowCall::SetWindowAttribute { attribute, .. } && (attribute
        == WindowAttribute::SystemBackdropType || attribute == WindowAttribute::MicaEffect)
}

/// The steps that apply acrylic on a system of version `v`.
pub open spec fn acrylic_calls(v: OsVersion) -> Seq<WindowCall> {
    if win11_backdrop_capable(v) {
        seq![
            WindowCall::SetWindowAttribute {
                attribute: WindowAttribute::SystemBackdropType,
                value: BackdropType::TransientWindow.spec_code(),
            },
        ]
    } else if supported_win10(v) || win11(v) {
        seq![WindowCall::SetCompositionAttribute(AccentState::EnableAcrylicBlurBehind)]
    } else {
        seq![WindowCall::Notice(Notice::AcrylicUnsupported)]
    }
}

/// The steps that apply blur on a system of version `v`.
pub open spec fn blur_calls(v: OsVersion) -> Seq<WindowCall> {
    if win7(v) {
        seq![WindowCall::EnableBlurBehind(BlurBehind { flags: BLUR_BEHIND_ENABLE, enable: true })]
    } else {
        seq![WindowCall::SetCompositionAttribute(AccentState::EnableBlurBehind)]
    }
}

/// The steps that apply Mica, with a dark or light title bar, on a system of
/// version `v`.
pub open spec fn mica_calls(v: OsVersion, dark: bool) -> Seq<WindowCall> {
    if win11(v) {
        seq![
            WindowCall::SetWindowAttribute {
                attribute: WindowAttribute::UseImmersiveDarkMode,
                value: bool_value(dark),
            },
            if win11_backdrop_capable(v) {
                WindowCall::SetWindowAttribute {
                    attribute: WindowAttribute::SystemBackdropType,
                    value: BackdropType::MainWindow.spec_code(),
                }
            } else {
                WindowCall::SetWindowAttribute { attribute: WindowAttribute::MicaEffect, value: 1 }
            },
        ]
    } else {
        seq![WindowCall::Notice(Notice::MicaUnsupported)]
    }
}

/// The steps that apply acrylic to a window on a system of version `v`: the
/// documented transient-window backdrop where the system has it, the
/// undocumented acrylic accent from Windows 10 1809 on, and otherwise a warning.
pub fn apply_acrylic(v: OsVersion) -> (r: Vec<WindowCall>)
    ensures
        r@ == acrylic_calls(v),
{
    if is_win11_dwmsbt(v) {
        let attribute = WindowAttribute::SystemBackdropType;
        let value = BackdropType::TransientWindow.code();
        vec![WindowCall::SetWindowAttribute { attribute, value }]
    } else if is_supported_win10(v) || is_win11(v) {
        vec![WindowCall::SetCompositionAttribute(AccentState::EnableAcrylicBlurBehind)]
    } else {
        vec![WindowCall::Notice(Notice::AcrylicUnsupported)]
    }
}

/// The steps that apply blur to a window on a system of version `v`: the
/// documented blur-behind call on Windows 7, the undocumented blur accent on
/// every other system.
pub fn apply_blur(v: OsVersion) -> (r: Vec<WindowCall>)
    ensures
        r@ == blur_calls(v),
{
    if is_win7(v) {
        vec![WindowCall::EnableBlurBehind(BlurBehind { flags: BLUR_BEHIND_ENABLE, enable: true })]
    } else {
        vec![WindowCall::SetCompositionAttribute(AccentState::EnableBlurBehind)]
    }
}

/// The steps that apply Mica to a window on a system of version `v`. On
/// Windows 11 the title bar is first made dark or light as `dark_mica` says,
/// then the backdrop is set: the documented main-window backdrop where the
/// system has it, else the older Mica attribute. Before Windows 11, a warning.
pub fn apply_mica(v: OsVersion, dark_mica: bool) -> (r: Vec<WindowCall>)
    ensures
        r@ == mica_calls(v, dark_mica),
{
    if is_win11(v) {
        let dark_value: i32 = if dark_mica {
            1
        } else {
            0
        };
        let title_bar = WindowCall::SetWindowAttribute {
            attribute: WindowAttribute::UseImmersiveDarkMode,
            value: dark_value,
        };
        let backdrop = if is_win11_dwmsbt(v) {
            let value = BackdropType::MainWindow.code();
            WindowCall::SetWindowAttribute { attribute: WindowAttribute::SystemBackdropType, value }
        } else {
            WindowCall::SetWindowAttribute { attribute: WindowAttribute::MicaEffect, value: 1 }
        };
        vec![title_bar, backdrop]
    } else {
        vec![WindowCall::Notice(Notice::MicaUnsupported)]
    }
}

/// Below Windows 10 1809 acrylic is only a warning: no composition attribute
/// call and no backdrop call is made.
pub proof fn lemma_acrylic_unsupported_before_1809(v: OsVersion)
    requires
        v.build < WIN10_1809_BUILD,
    ensures
        acrylic_calls(v) == seq![WindowCall::Notice(Notice::AcrylicUnsupported)],
        forall|i: int|
            0 <= i < acrylic_calls(v).len() ==> !is_composition_call(#[trigger] acrylic_calls(v)[i])
                && !is_backdrop_call(acrylic_calls(v)[i]),
{
}

/// On Windows 10 from 1809 on, acrylic is the undocumented composition
/// attribute call with the acrylic accent, state code 4.
pub proof fn lemma_acrylic_on_win10_uses_accent(v: OsVersion)
    requires
        WIN10_1809_BUILD <= v.build < WIN11_BUILD,
    ensures
        acrylic_calls(v) == seq![WindowCall::SetCompositionAttribute(AccentState::EnableAcrylicBlurBehind)],
        AccentState::EnableAcrylicBlurBehind.spec_code() == 4,
{
}

/// On builds with the documented backdrop attribute, acrylic is that attribute
/// set to the transient-window backdrop, value 3, and never the undocumented call.
pub proof fn lemma_acrylic_on_backdrop_builds_is_documented(v: OsVersion)
    requires
        v.build >= WIN11_BACKDROP_BUILD,
    ensures
        acrylic_calls(v) == seq![
            WindowCall::SetWindowAttribute {
                attribute: WindowAttribute::SystemBackdropType,
                value: 3,
            },
        ],
        WindowAttribute::SystemBackdropType.spec_code() == 38,
        forall|i: int|
            0 <= i < acrylic_calls(v).len() ==> !is_composition_call(#[trigger] acrylic_calls(v)[i]),
{
}

/// Before Windows 11, Mica is only a warning. From Windows 11 on, the first
/// call sets the dark title bar to exactly the flag given, and the backdrop
/// is set only after it.
pub proof fn lemma_mica_sets_title_bar_first(v: OsVersion, dark: bool)
    ensures
        v.build < WIN11_BUILD ==> mica_calls(v, dark) == seq![WindowCall::Notice(Notice::MicaUnsupported)],
        v.build >= WIN11_BUILD ==> {
            &&& mica_calls(v, dark).len() == 2
            &&& mica_calls(v, dark)[0] == (WindowCall::SetWindowAttribute {
                attribute: WindowAttribute::UseImmersiveDarkMode,
                value: bool_value(dark),
            })
            &&& (bool_value(dark) == 1 <==> dark)
            &&& !is_backdrop_call(mica_calls(v, dark)[0])
            &&& is_backdrop_call(mica_calls(v, dark)[1])
        },
{
}

/// On Windows 7 blur is the documented blur-behind call with the descriptor
/// enabled; on every other system it is the undocumented call with the blur
/// accent, state code 3.
pub proof fn lemma_blur_by_version(v: OsVersion)
    ensures
        v.major == 6 && v.minor == 1 ==> blur_calls(v) == seq![
            WindowCall::EnableBlurBehind(BlurBehind { flags: BLUR_BEHIND_ENABLE, enable: true }),
        ],
        !(v.major == 6 && v.minor == 1) ==> blur_calls(v) == seq![
            WindowCall::SetCompositionAttribute(AccentState::EnableBlurBehind),
        ],
        AccentState::EnableBlurBehind.spec_code() == 3,
{
}

} // verus!
