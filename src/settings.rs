use vstd::prelude::*;

verus! {

/// Asynchronous spacewarp mode of the Oculus runtime.
#[derive(Clone, Copy, Debug, PartialEq, Eq, Structural)]
pub enum ASWMode {
    Off,
    Auto,
    Force45FPS,
    Force30FPS,
}

/// Strength of fixed foveated rendering.
#[derive(Clone, Copy, Debug, PartialEq, Eq, Structural)]
pub enum FoveatedLevel {
    Off,
    Low,
    Medium,
    High,
    HighTop,
}

/// Scheduling priority given to the VR server processes.
#[derive(Clone, Copy, Debug, PartialEq, Eq, Structural)]
pub enum GPUPriority {
    Normal,
    High,
    Realtime,
}

/// Upscaling filter of the external OpenXR tool.
#[derive(Clone, Copy, Debug, PartialEq, Eq, Structural)]
pub enum UpscalingType {
    NIS,
    FSR,
    CAS,
}

/// Operating-system power plan selected while playing.
#[derive(Clone, Copy, Debug, PartialEq, Eq, Structural)]
pub enum PowerPlan {
    Balanced,
    HighPerformance,
    PowerSaver,
}

/// Runtime selection, frame pacing and scheduling.
#[derive(Clone, Copy, Debug, PartialEq, Eq, Structural)]
pub struct PerformanceSettings {
    /// Render scale, in hundredths.
    pub render_scale: u32,
    pub use_openxr: bool,
    pub use_steamvr: bool,
    pub asw_enabled: bool,
    pub asw_mode: ASWMode,
    pub foveated_rendering: bool,
    pub foveated_level: FoveatedLevel,
    pub cpu_priority_boost: bool,
    pub gpu_priority: GPUPriority,
    pub frame_throttle_fps: u32,
    pub shake_reduction: bool,
    pub power_plan: PowerPlan,
}

/// Link encoding and image quality.
#[derive(Clone, Copy, Debug, PartialEq, Eq, Structural)]
pub struct VisualSettings {
    pub encode_bitrate_mbps: u32,
    pub encode_resolution_width: u32,
    pub encode_resolution_height: u32,
    /// Link sharpening, in hundredths (0 is off, 100 is full strength).
    pub link_sharpening: u32,
    /// Pixel density, in hundredths.
    pub pixel_density: u32,
    /// Field-of-view scale, in hundredths.
    pub fov_scale: u32,
    /// Contrast, in hundredths.
    pub contrast: u32,
    /// Saturation, in hundredths.
    pub saturation: u32,
    /// Sharpening amount, in hundredths.
    pub sharpening_amount: u32,
    /// Super sampling factor, in hundredths.
    pub super_sampling: u32,
    pub upscaling_enabled: bool,
    pub upscaling_type: UpscalingType,
    /// Upscaling scale, in hundredths.
    pub upscaling_scale: u32,
    pub mirror_window: bool,
    pub guardian_visibility: bool,
}

/// Process recovery and the dash-killer.
#[derive(Clone, Copy, Debug, PartialEq, Eq, Structural)]
pub struct RecoverySettings {
    pub auto_restart_on_freeze: bool,
    pub kill_oculus_client: bool,
    pub restart_threshold_seconds: u32,
    pub oculus_killer_enabled: bool,
    pub cpu_affinity: u32,
    pub audio_switching: bool,
}

/// OpenXR switches for experts.
#[derive(Clone, Copy, Debug, PartialEq, Eq, Structural)]
pub struct AdvancedSettings {
    pub force_composition_layers: bool,
    pub disable_depth_submission: bool,
    pub turbo_mode: bool,
}

/// ReLinked mode and the options that go with it.
#[derive(Clone, Debug, PartialEq, Eq)]
pub struct RelinkedSettings {
    pub relinked_mode: bool,
    pub disable_asw: bool,
    pub enable_steamvr_autostart: bool,
    pub enable_runtime_high_priority: bool,
    pub allow_other_software: bool,
    pub custom_startup_program: String,
    pub custom_fps: u32,
    pub disable_oled_mura: bool,
    pub debug_logging: bool,
    pub disable_telemetry: bool,
    pub disable_login: bool,
}

/// Mathematical model of [`RelinkedSettings`].
#[verifier::ext_equal]
pub struct RelinkedView {
    pub relinked_mode: bool,
    pub disable_asw: bool,
    pub enable_steamvr_autostart: bool,
    pub enable_runtime_high_priority: bool,
    pub allow_other_software: bool,
    pub custom_startup_program: Seq<char>,
    pub custom_fps: u32,
    pub disable_oled_mura: bool,
    pub debug_logging: bool,
    pub disable_telemetry: bool,
    pub disable_login: bool,
}

impl View for RelinkedSettings {
    type V = RelinkedView;

    open spec fn view(&self) -> RelinkedView {
        RelinkedView {
            relinked_mode: self.relinked_mode,
            disable_asw: self.disable_asw,
            enable_steamvr_autostart: self.enable_steamvr_autostart,
            enable_runtime_high_priority: self.enable_runtime_high_priority,
            allow_other_software: self.allow_other_software,
            custom_startup_program: self.custom_startup_program@,
            custom_fps: self.custom_fps,
            disable_oled_mura: self.disable_oled_mura,
            debug_logging: self.debug_logging,
            disable_telemetry: self.disable_telemetry,
            disable_login: self.disable_login,
        }
    }
}

/// The persisted configuration record, grouped as the panel shows it.
///
/// Fractional quantities are held in hundredths (`render_scale == 120` is a
/// scale of 1.2), so that every field is an exact plain value.
#[derive(Clone, Debug, PartialEq, Eq)]
pub struct VRSettings {
    pub performance: PerformanceSettings,
    pub visual: VisualSettings,
    pub recovery: RecoverySettings,
    pub advanced: AdvancedSettings,
    pub relinked: RelinkedSettings,
}

/// Mathematical model of [`VRSettings`].
#[verifier::ext_equal]
pub struct SettingsView {
    pub performance: PerformanceSettings,
    pub visual: VisualSettings,
    pub recovery: RecoverySettings,
    pub advanced: AdvancedSettings,
    pub relinked: RelinkedView,
}

impl View for VRSettings {
    type V = SettingsView;

    open spec fn view(&self) -> SettingsView {
        SettingsView {
            performance: self.performance,
            visual: self.visual,
            recovery: self.recovery,
            advanced: self.advanced,
            relinked: self.relinked@,
        }
    }
}

/// The hardcoded default record.
pub open spec fn default_view() -> SettingsView {
    SettingsView {
        performance: PerformanceSettings {
            render_scale: 120,
            use_openxr: true,
            use_steamvr: false,
            asw_enabled: true,
            asw_mode: ASWMode::Auto,
            foveated_rendering: true,
            foveated_level: FoveatedLevel::High,
            cpu_priority_boost: true,
            gpu_priority: GPUPriority::High,
            frame_throttle_fps: 90,
            shake_reduction: false,
            power_plan: PowerPlan::HighPerformance,
        },
        visual: VisualSettings {
            encode_bitrate_mbps: 300,
            encode_resolution_width: 2784,
            encode_resolution_height: 1472,
            link_sharpening: 50,
            pixel_density: 100,
            fov_scale: 100,
            contrast: 100,
            saturation: 100,
            sharpening_amount: 50,
            super_sampling: 100,
            upscaling_enabled: false,
            upscaling_type: UpscalingType::FSR,
            upscaling_scale: 100,
            mirror_window: false,
            guardian_visibility: true,
        },
        recovery: RecoverySettings {
            auto_restart_on_freeze: true,
            kill_oculus_client: false,
            restart_threshold_seconds: 10,
            oculus_killer_enabled: false,
            cpu_affinity: 0,
            audio_switching: true,
        },
        advanced: AdvancedSettings {
            force_composition_layers: false,
            disable_depth_submission: false,
            turbo_mode: false,
        },
        relinked: RelinkedView {
            relinked_mode: false,
            disable_asw: false,
            enable_steamvr_autostart: true,
            enable_runtime_high_priority: true,
            allow_other_software: true,
            custom_startup_program: Seq::empty(),
            custom_fps: 120,
            disable_oled_mura: false,
            debug_logging: false,
            disable_telemetry: false,
            disable_login: false,
        },
    }
}

impl Default for VRSettings {
    fn default() -> (r: VRSettings)
        ensures
            r@ == default_view(),
    {
        VRSettings {
            performance: PerformanceSettings {
                render_scale: 120,
                use_openxr: true,
                use_steamvr: false,
                asw_enabled: true,
                asw_mode: ASWMode::Auto,
                foveated_rendering: true,
                foveated_level: FoveatedLevel::High,
                cpu_priority_boost: true,
                gpu_priority: GPUPriority::High,
                frame_throttle_fps: 90,
                shake_reduction: false,
                power_plan: PowerPlan::HighPerformance,
            },
            visual: VisualSettings {
                encode_bitrate_mbps: 300,
                encode_resolution_width: 2784,
                encode_resolution_height: 1472,
                link_sharpening: 50,
                pixel_density: 100,
                fov_scale: 100,
                contrast: 100,
                saturation: 100,
                sharpening_amount: 50,
                super_sampling: 100,
                upscaling_enabled: false,
                upscaling_type: UpscalingType::FSR,
                upscaling_scale: 100,
                mirror_window: false,
                guardian_visibility: true,
            },
            recovery: RecoverySettings {
                auto_restart_on_freeze: true,
                kill_oculus_client: false,
                restart_threshold_seconds: 10,
                oculus_killer_enabled: false,
                cpu_affinity: 0,
                audio_switching: true,
            },
            advanced: AdvancedSettings {
                force_composition_layers: false,
                disable_depth_submission: false,
                turbo_mode: false,
            },
            relinked: RelinkedSettings {
                relinked_mode: false,
                disable_asw: false,
                enable_steamvr_autostart: true,
                enable_runtime_high_priority: true,
                allow_other_software: true,
                custom_startup_program: String::new(),
                custom_fps: 120,
                disable_oled_mura: false,
                debug_logging: false,
                disable_telemetry: false,
                disable_login: false,
            },
        }
    }
}

/// What loading the settings file yields: the record that was read when one
/// was, else the default record. A document that failed to read or to parse
/// comes in as `None`; no field of it is kept.
pub open spec fn loaded_view(read: Option<SettingsView>) -> SettingsView {
    match read {
        Some(v) => v,
        None => default_view(),
    }
}

/// Settles the outcome of reading the settings file: a record that was read
/// whole is kept, anything else gives way to the defaults.
pub fn settings_or_default(read: Option<VRSettings>) -> (r: VRSettings)
    ensures
        r@ == loaded_view(
            match read {
                Some(s) => Some(s@),
                None => None,
            },
        ),
{
    match read {
        Some(s) => s,
        None => VRSettings::default(),
    }
}

/// Per-eye panel size that a render scale of one stands for.
pub const BASE_RENDER_WIDTH: u64 = 2064;

pub const BASE_RENDER_HEIGHT: u64 = 2208;

/// Resolution that a render scale (in hundredths) gives, each side rounded
/// down to whole pixels.
pub fn render_resolution(render_scale: u32) -> (r: (u64, u64))
    ensures
        r.0 == BASE_RENDER_WIDTH * render_scale / 100,
        r.1 == BASE_RENDER_HEIGHT * render_scale / 100,
{
    let scale = render_scale as u64;
    (BASE_RENDER_WIDTH * scale / 100, BASE_RENDER_HEIGHT * scale / 100)
}

impl PowerPlan {
    /// Identifier of the plan's power scheme.
    pub fn scheme_guid(&self) -> (r: &'static str)
        ensures
            r@ == (match *self {
                PowerPlan::Balanced => "381b4222-f694-41f0-9685-ff5bb260df2e"@,
                PowerPlan::HighPerformance => "8c5e7fda-e8bf-4a96-9a85-a6e23a8c635c"@,
                PowerPlan::PowerSaver => "a1841308-3541-4fab-bc81-f71556f20b4a"@,
            }),
    {
        match self {
            PowerPlan::Balanced => "381b4222-f694-41f0-9685-ff5bb260df2e",
            PowerPlan::HighPerformance => "8c5e7fda-e8bf-4a96-9a85-a6e23a8c635c",
            PowerPlan::PowerSaver => "a1841308-3541-4fab-bc81-f71556f20b4a",
        }
    }
}

} // verus!
