//! Client settings: the persisted record, its defaults and the URL it
//! resolves to.

use vstd::prelude::*;
use crate::text::{trim, trim_chars};

verus! {

/// The main game domain.
pub const WANKLE_ONLINE: &'static str = "https://wankle.online";

/// The mirror domain; both serve the same game.
pub const WANSHOT_LOL: &'static str = "https://wanshot.lol";

/// Bit pattern of the `f32` value `1.0`: a throttle multiplier of one, i.e.
/// no throttling.
pub const NO_THROTTLE_BITS: u32 = 0x3f80_0000;

/// Persisted client settings.
///
/// The CPU throttle multiplier is an `f32`; the library never computes with
/// it and keeps it as its IEEE-754 bit pattern (`f32::to_bits`), so that a
/// value read from disk is written back unchanged.
#[derive(Clone, Debug)]
pub struct Config {
    /// Preset site URL (one of the known domains).
    pub site: String,
    /// Custom URL used when `use_custom_url` is set.
    pub custom_url: String,
    pub use_custom_url: bool,
    /// ANGLE backend: auto | d3d11 | d3d9 | gl | vulkan | swiftshader.
    pub rendering_api: String,
    /// Master GPU acceleration switch; when off, `--disable-gpu` is passed.
    pub gpu_acceleration: bool,
    /// Unlock the frame rate.
    pub fps_unlock: bool,
    /// Bit pattern of the CPU throttle multiplier (`1.0` = no throttle).
    pub cpu_throttle_bits: u32,
    /// Process priority class: Idle | Below Normal | Normal | Above Normal | High.
    pub priority: String,
    /// Window mode: Windowed | Maximized | Borderless Fullscreen.
    pub window_mode: String,
    /// Extra raw Chromium flags appended verbatim (trimmed, blanks dropped).
    pub extra_flags: Vec<String>,
    /// Default flags to omit, matched by exact string.
    pub disabled_default_flags: Vec<String>,
    /// Key that toggles the overlay menu (F1 | F2 | Insert | Backtick).
    pub menu_hotkey: String,
    /// Show the launcher menu on startup instead of going straight in.
    pub open_menu_on_startup: bool,
    pub devtools: bool,
}

/// The mathematical model of a [`Config`]: every text as its characters.
pub struct ConfigView {
    pub site: Seq<char>,
    pub custom_url: Seq<char>,
    pub use_custom_url: bool,
    pub rendering_api: Seq<char>,
    pub gpu_acceleration: bool,
    pub fps_unlock: bool,
    pub cpu_throttle_bits: u32,
    pub priority: Seq<char>,
    pub window_mode: Seq<char>,
    pub extra_flags: Seq<Seq<char>>,
    pub disabled_default_flags: Seq<Seq<char>>,
    pub menu_hotkey: Seq<char>,
    pub open_menu_on_startup: bool,
    pub devtools: bool,
}

/// The characters of each string in a vector.
pub open spec fn strings_view(v: Seq<String>) -> Seq<Seq<char>> {
    v.map_values(|s: String| s@)
}

impl View for Config {
    type V = ConfigView;

    open spec fn view(&self) -> ConfigView {
        ConfigView {
            site: self.site@,
            custom_url: self.custom_url@,
            use_custom_url: self.use_custom_url,
            rendering_api: self.rendering_api@,
            gpu_acceleration: self.gpu_acceleration,
            fps_unlock: self.fps_unlock,
            cpu_throttle_bits: self.cpu_throttle_bits,
            priority: self.priority@,
            window_mode: self.window_mode@,
            extra_flags: strings_view(self.extra_flags@),
            disabled_default_flags: strings_view(self.disabled_default_flags@),
            menu_hotkey: self.menu_hotkey@,
            open_menu_on_startup: self.open_menu_on_startup,
            devtools: self.devtools,
        }
    }
}

/// The settings of a fresh install.
pub open spec fn default_config() -> ConfigView {
    ConfigView {
        site: WANKLE_ONLINE@,
        custom_url: Seq::empty(),
        use_custom_url: false,
        rendering_api: "auto"@,
        gpu_acceleration: true,
        fps_unlock: true,
        cpu_throttle_bits: NO_THROTTLE_BITS,
        priority: "High"@,
        window_mode: "Windowed"@,
        extra_flags: Seq::empty(),
        disabled_default_flags: Seq::empty(),
        menu_hotkey: "F1"@,
        open_menu_on_startup: true,
        devtools: true,
    }
}

/// The URL the game window loads: the trimmed custom URL when it is enabled
/// and not blank, the preset site otherwise.
pub open spec fn target_url_of(c: ConfigView) -> Seq<char> {
    if c.use_custom_url && trim_chars(c.custom_url).len() > 0 {
        trim_chars(c.custom_url)
    } else {
        c.site
    }
}

impl Default for Config {
    fn default() -> (c: Self)
        ensures
            c@ == default_config(),
    {
        let c = Config {
            site: WANKLE_ONLINE.to_owned(),
            custom_url: String::new(),
            use_custom_url: false,
            rendering_api: "auto".to_owned(),
            gpu_acceleration: true,
            fps_unlock: true,
            cpu_throttle_bits: NO_THROTTLE_BITS,
            priority: "High".to_owned(),
            window_mode: "Windowed".to_owned(),
            extra_flags: Vec::new(),
            disabled_default_flags: Vec::new(),
            menu_hotkey: "F1".to_owned(),
            open_menu_on_startup: true,
            devtools: true,
        };
        assert(c@.extra_flags =~= Seq::<Seq<char>>::empty());
        assert(c@.disabled_default_flags =~= Seq::<Seq<char>>::empty());
        c
    }
}

impl Config {
    /// Resolve the URL to actually load.
    pub fn target_url(&self) -> (r: String)
        ensures
            r@ == target_url_of(self@),
    {
        let custom = trim(self.custom_url.as_str());
        if self.use_custom_url && !custom.is_empty() {
            custom.to_owned()
        } else {
            self.site.clone()
        }
    }
}


/// An enabled custom URL that is not blank wins over the preset site,
/// whichever site is selected, and is loaded trimmed; otherwise the preset
/// site is loaded as it stands.
pub proof fn lemma_custom_url_wins(c: ConfigView)
    ensures
        c.use_custom_url && trim_chars(c.custom_url).len() > 0 ==> target_url_of(c) == trim_chars(
            c.custom_url,
        ),
        !c.use_custom_url ==> target_url_of(c) == c.site,
        trim_chars(c.custom_url).len() == 0 ==> target_url_of(c) == c.site,
        forall|site: Seq<char>|
            c.use_custom_url && trim_chars(c.custom_url).len() > 0 ==> #[trigger] target_url_of(
                ConfigView { site, ..c },
            ) == target_url_of(c),
{
}


/// The settings of a fresh install: the main site, no custom URL, automatic
/// rendering API, GPU on, frame rate unlocked, no throttle, High priority,
/// windowed, no extra or disabled flags, F1, menu on startup, DevTools on.
pub proof fn lemma_default_settings()
    ensures
        default_config().site == "https://wankle.online"@,
        default_config().custom_url.len() == 0,
        !default_config().use_custom_url,
        default_config().rendering_api == "auto"@,
        default_config().gpu_acceleration,
        default_config().fps_unlock,
        default_config().cpu_throttle_bits == 0x3f80_0000u32,
        default_config().priority == "High"@,
        default_config().window_mode == "Windowed"@,
        default_config().extra_flags.len() == 0,
        default_config().disabled_default_flags.len() == 0,
        default_config().menu_hotkey == "F1"@,
        default_config().open_menu_on_startup,
        default_config().devtools,
        target_url_of(default_config()) == "https://wankle.online"@,
{
}

} // verus!
