//! The feature names of the Permissions-Policy header.
use vstd::prelude::*;

use crate::text::{compare_text, lex_cmp};

verus! {

/// A browser feature that a Permissions-Policy directive can allow or block.
#[derive(PartialEq, Eq, Structural, Clone, Copy, Debug)]
pub enum Directive {
    // Standardized features: declared in a published standard.
    Accelerometer,
    AmbientLightSensor,
    AttributionReporting,
    Autoplay,
    Battery,
    Bluetooth,
    Camera,
    ChUa,
    ChUaArch,
    ChUaBitness,
    ChUaFullVersion,
    ChUaFullVersionList,
    ChUaMobile,
    ChUaModel,
    ChUaPlatform,
    ChUaPlatformVersion,
    ChUaWow64,
    ComputePressure,
    CrossOriginIsolated,
    DirectSockets,
    DisplayCapture,
    EncryptedMedia,
    ExecutionWhileNotRendered,
    ExecutionWhileOutOfViewport,
    Fullscreen,
    Geolocation,
    Gyroscope,
    Hid,
    IdentityCredentialsGet,
    IdleDetection,
    KeyboardMap,
    Magnetometer,
    Microphone,
    Midi,
    NavigationOverride,
    Payment,
    PictureInPicture,
    PublickeyCredentialsGet,
    ScreenWakeLock,
    Serial,
    StorageAccess,
    SyncXhr,
    Usb,
    WebShare,
    WindowManagement,
    XrSpatialTracking,

    // Proposed features: proposed, not yet part of a standard.
    ClipboardRead,
    ClipboardWrite,
    Gemepad,
    SharedAutofill,
    SpeakerSelection,

    // Experimental features: mostly an explainer only, open to experimentation.
    AllScreensCapture,
    BrowsingTopics,
    CapturedSurfaceControl,
    ConversionMeasurement,
    DigitalCredentialsGet,
    FocusWithoutUserActivation,
    JoinAdInterestGroup,
    LocalFonts,
    RunAdAuction,
    SmartCard,
    SyncScript,
    TrustTokenRedemption,
    Unload,
    VerticalScroll,
}

impl Directive {
    /// The directive's name.
    pub open spec fn spec_to_str(&self) -> &'static str {
        match self {
            Directive::Accelerometer => "accelerometer",
            Directive::AmbientLightSensor => "ambientLightSensor",
            Directive::AttributionReporting => "attributionReporting",
            Directive::Autoplay => "autoplay",
            Directive::Battery => "battery",
            Directive::Bluetooth => "bluetooth",
            Directive::Camera => "camera",
            Directive::ChUa => "chUa",
            Directive::ChUaArch => "chUaArch",
            Directive::ChUaBitness => "chUaBitness",
            Directive::ChUaFullVersion => "chUaFullVersion",
            Directive::ChUaFullVersionList => "chUaFullVersionList",
            Directive::ChUaMobile => "chUaMobile",
            Directive::ChUaModel => "chUaModel",
            Directive::ChUaPlatform => "chUaPlatform",
            Directive::ChUaPlatformVersion => "chUaPlatformVersion",
            Directive::ChUaWow64 => "chUaWow64",
            Directive::ComputePressure => "computePressure",
            Directive::CrossOriginIsolated => "crossOriginIsolated",
            Directive::DirectSockets => "directSockets",
            Directive::DisplayCapture => "displayCapture",
            Directive::EncryptedMedia => "encryptedMedia",
            Directive::ExecutionWhileNotRendered => "executionWhileNotRendered",
            Directive::ExecutionWhileOutOfViewport => "executionWhileOutOfViewport",
            Directive::Fullscreen => "fullscreen",
            Directive::Geolocation => "geolocation",
            Directive::Gyroscope => "gyroscope",
            Directive::Hid => "hid",
            Directive::IdentityCredentialsGet => "identityCredentialsGet",
            Directive::IdleDetection => "idleDetection",
            Directive::KeyboardMap => "keyboardMap",
            Directive::Magnetometer => "magnetometer",
            Directive::Microphone => "microphone",
            Directive::Midi => "midi",
            Directive::NavigationOverride => "navigationOverride",
            Directive::Payment => "payment",
            Directive::PictureInPicture => "pictureInPicture",
            Directive::PublickeyCredentialsGet => "publickeyCredentialsGet",
            Directive::ScreenWakeLock => "screenWakeLock",
            Directive::Serial => "serial",
            Directive::StorageAccess => "storageAccess",
            Directive::SyncXhr => "syncXhr",
            Directive::Usb => "usb",
            Directive::WebShare => "webShare",
            Directive::WindowManagement => "windowManagement",
            Directive::XrSpatialTracking => "xrSpatialTracking",
            Directive::ClipboardRead => "clipboardRead",
            Directive::ClipboardWrite => "clipboardWrite",
            Directive::Gemepad => "gemepad",
            Directive::SharedAutofill => "sharedAutofill",
            Directive::SpeakerSelection => "speakerSelection",
            Directive::AllScreensCapture => "allScreensCapture",
            Directive::BrowsingTopics => "browsingTopics",
            Directive::CapturedSurfaceControl => "capturedSurfaceControl",
            Directive::ConversionMeasurement => "conversionMeasurement",
            Directive::DigitalCredentialsGet => "digitalCredentialsGet",
            Directive::FocusWithoutUserActivation => "focusWithoutUserActivation",
            Directive::JoinAdInterestGroup => "joinAdInterestGroup",
            Directive::LocalFonts => "localFonts",
            Directive::RunAdAuction => "runAdAuction",
            Directive::SmartCard => "smartCard",
            Directive::SyncScript => "syncScript",
            Directive::TrustTokenRedemption => "trustTokenRedemption",
            Directive::Unload => "unload",
            Directive::VerticalScroll => "verticalScroll",
        }
    }

    /// The directive's name.
    #[verifier::when_used_as_spec(spec_to_str)]
    pub fn to_str(&self) -> (r: &'static str)
        ensures
            r == self.spec_to_str(),
    {
        match self {
            Directive::Accelerometer => "accelerometer",
            Directive::AmbientLightSensor => "ambientLightSensor",
            Directive::AttributionReporting => "attributionReporting",
            Directive::Autoplay => "autoplay",
            Directive::Battery => "battery",
            Directive::Bluetooth => "bluetooth",
            Directive::Camera => "camera",
            Directive::ChUa => "chUa",
            Directive::ChUaArch => "chUaArch",
            Directive::ChUaBitness => "chUaBitness",
            Directive::ChUaFullVersion => "chUaFullVersion",
            Directive::ChUaFullVersionList => "chUaFullVersionList",
            Directive::ChUaMobile => "chUaMobile",
            Directive::ChUaModel => "chUaModel",
            Directive::ChUaPlatform => "chUaPlatform",
            Directive::ChUaPlatformVersion => "chUaPlatformVersion",
            Directive::ChUaWow64 => "chUaWow64",
            Directive::ComputePressure => "computePressure",
            Directive::CrossOriginIsolated => "crossOriginIsolated",
            Directive::DirectSockets => "directSockets",
            Directive::DisplayCapture => "displayCapture",
            Directive::EncryptedMedia => "encryptedMedia",
            Directive::ExecutionWhileNotRendered => "executionWhileNotRendered",
            Directive::ExecutionWhileOutOfViewport => "executionWhileOutOfViewport",
            Directive::Fullscreen => "fullscreen",
            Directive::Geolocation => "geolocation",
            Directive::Gyroscope => "gyroscope",
            Directive::Hid => "hid",
            Directive::IdentityCredentialsGet => "identityCredentialsGet",
            Directive::IdleDetection => "idleDetection",
            Directive::KeyboardMap => "keyboardMap",
            Directive::Magnetometer => "magnetometer",
            Directive::Microphone => "microphone",
            Directive::Midi => "midi",
            Directive::NavigationOverride => "navigationOverride",
            Directive::Payment => "payment",
            Directive::PictureInPicture => "pictureInPicture",
            Directive::PublickeyCredentialsGet => "publickeyCredentialsGet",
            Directive::ScreenWakeLock => "screenWakeLock",
            Directive::Serial => "serial",
            Directive::StorageAccess => "storageAccess",
            Directive::SyncXhr => "syncXhr",
            Directive::Usb => "usb",
            Directive::WebShare => "webShare",
            Directive::WindowManagement => "windowManagement",
            Directive::XrSpatialTracking => "xrSpatialTracking",
            Directive::ClipboardRead => "clipboardRead",
            Directive::ClipboardWrite => "clipboardWrite",
            Directive::Gemepad => "gemepad",
            Directive::SharedAutofill => "sharedAutofill",
            Directive::SpeakerSelection => "speakerSelection",
            Directive::AllScreensCapture => "allScreensCapture",
            Directive::BrowsingTopics => "browsingTopics",
            Directive::CapturedSurfaceControl => "capturedSurfaceControl",
            Directive::ConversionMeasurement => "conversionMeasurement",
            Directive::DigitalCredentialsGet => "digitalCredentialsGet",
            Directive::FocusWithoutUserActivation => "focusWithoutUserActivation",
            Directive::JoinAdInterestGroup => "joinAdInterestGroup",
            Directive::LocalFonts => "localFonts",
            Directive::RunAdAuction => "runAdAuction",
            Directive::SmartCard => "smartCard",
            Directive::SyncScript => "syncScript",
            Directive::TrustTokenRedemption => "trustTokenRedemption",
            Directive::Unload => "unload",
            Directive::VerticalScroll => "verticalScroll",
        }
    }
}

/// Directives are ordered by their names.
impl PartialOrd for Directive {
    fn partial_cmp(&self, other: &Directive) -> (r: Option<core::cmp::Ordering>) {
        Some(compare_text(self.to_str(), other.to_str()))
    }
}

impl vstd::std_specs::cmp::PartialOrdSpecImpl for Directive {
    open spec fn obeys_partial_cmp_spec() -> bool {
        true
    }

    open spec fn partial_cmp_spec(&self, other: &Directive) -> Option<core::cmp::Ordering> {
        Some(lex_cmp(self.spec_to_str()@, other.spec_to_str()@))
    }
}

} // verus!
