//! The client's decisions between the windows and the menu: from the current
//! state and an event (a hotkey press, a menu message, a window close) to the
//! next state and the effects the caller carries out, in order.

use vstd::prelude::*;
use crate::config::{Config, ConfigView};
use crate::flags::{browser_args, build_browser_args};
use crate::text::str_eq;
use crate::ui::{ResizeDir, resize_dir, resize_dir_of};

verus! {

/// Something that happened: the menu hotkey, a message from the menu page,
/// or a close request on one of the two windows.
#[derive(Debug)]
pub enum ClientEvent {
    /// The menu hotkey was pressed.
    ToggleMenu,
    /// The menu page finished loading.
    MenuReady,
    /// Launch (first time) or apply-and-relaunch, with the settings the menu
    /// sent when they could be read.
    Play { config: Option<Config> },
    /// New CPU throttle multiplier (as `f32` bits), when the message held a number.
    Throttle { rate_bits: Option<u32> },
    /// New process priority, when the message held a string.
    Priority { level: Option<String> },
    /// Open the game's developer tools.
    OpenDevtools,
    /// Hide the menu and resume the game.
    CloseMenu,
    /// Quit the whole client.
    Quit,
    /// The user pressed on the menu's title bar.
    DragMenu,
    /// The user pressed on a resize grip, named when the message held a string.
    ResizeMenu { dir: Option<String> },
    /// A menu message of any other type.
    UnknownMessage,
    /// The game window's close button.
    GameCloseRequested,
    /// The overlay window's close button.
    OverlayCloseRequested,
}

/// The event a menu message stands for, from its `type` field (empty when
/// absent) and the fields it may carry.
pub open spec fn ipc_event_of(
    kind: Seq<char>,
    config: Option<Config>,
    rate_bits: Option<u32>,
    value: Option<String>,
    dir: Option<String>,
) -> ClientEvent {
    if kind == "ready"@ {
        ClientEvent::MenuReady
    } else if kind == "play"@ {
        ClientEvent::Play { config }
    } else if kind == "throttle"@ {
        ClientEvent::Throttle { rate_bits }
    } else if kind == "priority"@ {
        ClientEvent::Priority { level: value }
    } else if kind == "devtools"@ {
        ClientEvent::OpenDevtools
    } else if kind == "close"@ {
        ClientEvent::CloseMenu
    } else if kind == "quit"@ {
        ClientEvent::Quit
    } else if kind == "drag"@ {
        ClientEvent::DragMenu
    } else if kind == "resize"@ {
        ClientEvent::ResizeMenu { dir }
    } else {
        ClientEvent::UnknownMessage
    }
}

/// Classify a menu message.
pub fn ipc_event(
    kind: &str,
    config: Option<Config>,
    rate_bits: Option<u32>,
    value: Option<String>,
    dir: Option<String>,
) -> (e: ClientEvent)
    ensures
        e == ipc_event_of(kind@, config, rate_bits, value, dir),
{
    if str_eq(kind, "ready") {
        ClientEvent::MenuReady
    } else if str_eq(kind, "play") {
        ClientEvent::Play { config }
    } else if str_eq(kind, "throttle") {
        ClientEvent::Throttle { rate_bits }
    } else if str_eq(kind, "priority") {
        ClientEvent::Priority { level: value }
    } else if str_eq(kind, "devtools") {
        ClientEvent::OpenDevtools
    } else if str_eq(kind, "close") {
        ClientEvent::CloseMenu
    } else if str_eq(kind, "quit") {
        ClientEvent::Quit
    } else if str_eq(kind, "drag") {
        ClientEvent::DragMenu
    } else if str_eq(kind, "resize") {
        ClientEvent::ResizeMenu { dir }
    } else {
        ClientEvent::UnknownMessage
    }
}

/// What the caller does after a step, in order. Effects that need the
/// settings or whether a game runs read them from the state after the step.
#[derive(Clone, Copy, Debug, PartialEq, Eq, Structural)]
pub enum Effect {
    /// Show or hide the overlay window and its menu page.
    SetMenuVisible(bool),
    /// Give keyboard focus to the overlay window and its menu page.
    FocusMenu,
    /// Give keyboard focus to the game window.
    FocusGame,
    /// Push the settings into the menu page.
    SendConfig,
    /// Write the settings to disk.
    SaveConfig,
    /// Create the game view with the settings, apply the live ones and hide
    /// the menu.
    StartGame,
    /// Start a fresh client process in play mode.
    Relaunch,
    /// Leave the event loop.
    Exit,
    /// Apply the CPU throttle to the game view.
    ApplyCpuThrottle,
    /// Apply the process priority.
    ApplyPriority,
    /// Open the game view's developer tools.
    OpenDevtools,
    /// Let the user drag the overlay window.
    DragMenu,
    /// Let the user resize the overlay window from the given edge.
    ResizeMenu(ResizeDir),
}

/// The client between two events.
#[derive(Debug)]
pub struct ClientState {
    /// The overlay menu is shown.
    pub menu_open: bool,
    /// A game view exists.
    pub in_game: bool,
    /// The current settings.
    pub config: Config,
    /// The browser arguments this process started with; WebView2 honours
    /// only one set per process.
    pub startup_args: String,
}

#[verifier::ext_equal]
pub struct ClientStateView {
    pub menu_open: bool,
    pub in_game: bool,
    pub config: ConfigView,
    pub startup_args: Seq<char>,
}

impl View for ClientState {
    type V = ClientStateView;

    open spec fn view(&self) -> ClientStateView {
        ClientStateView {
            menu_open: self.menu_open,
            in_game: self.in_game,
            config: self.config@,
            startup_args: self.startup_args@,
        }
    }
}

/// Hide the menu and hand focus back to a running game.
pub open spec fn hide_menu(s: ClientStateView) -> (ClientStateView, Seq<Effect>) {
    (
        ClientStateView { menu_open: false, ..s },
        if s.in_game {
            seq![Effect::SetMenuVisible(false), Effect::FocusGame]
        } else {
            seq![Effect::SetMenuVisible(false)]
        },
    )
}

/// The next state and the effects of an event.
pub open spec fn next(s: ClientStateView, e: ClientEvent) -> (ClientStateView, Seq<Effect>) {
    match e {
        ClientEvent::ToggleMenu => {
            let open = !s.menu_open;
            (
                ClientStateView { menu_open: open, ..s },
                if open {
                    seq![Effect::SetMenuVisible(true), Effect::FocusMenu, Effect::SendConfig]
                } else if s.in_game {
                    seq![Effect::SetMenuVisible(false), Effect::FocusGame]
                } else {
                    seq![Effect::SetMenuVisible(false)]
                },
            )
        },
        ClientEvent::MenuReady => (s, seq![Effect::SendConfig]),
        ClientEvent::Play { config } => {
            let cfg = match config {
                Some(c) => c@,
                None => s.config,
            };
            if !s.in_game && browser_args(cfg) == s.startup_args {
                (
                    ClientStateView { menu_open: false, in_game: true, config: cfg, ..s },
                    seq![Effect::SaveConfig, Effect::StartGame],
                )
            } else {
                (
                    ClientStateView { config: cfg, ..s },
                    seq![Effect::SaveConfig, Effect::Relaunch, Effect::Exit],
                )
            }
        },
        ClientEvent::Throttle { rate_bits } => match rate_bits {
            Some(b) => (
                ClientStateView { config: ConfigView { cpu_throttle_bits: b, ..s.config }, ..s },
                if s.in_game {
                    seq![Effect::ApplyCpuThrottle, Effect::SaveConfig]
                } else {
                    seq![Effect::SaveConfig]
                },
            ),
            None => (s, Seq::empty()),
        },
        ClientEvent::Priority { level } => match level {
            Some(v) => (
                ClientStateView { config: ConfigView { priority: v@, ..s.config }, ..s },
                seq![Effect::ApplyPriority, Effect::SaveConfig],
            ),
            None => (s, Seq::empty()),
        },
        ClientEvent::OpenDevtools => (
            s,
            if s.in_game {
                seq![Effect::OpenDevtools]
            } else {
                Seq::empty()
            },
        ),
        ClientEvent::CloseMenu => hide_menu(s),
        ClientEvent::Quit => (s, seq![Effect::Exit]),
        ClientEvent::DragMenu => (s, seq![Effect::DragMenu]),
        ClientEvent::ResizeMenu { dir } => (
            s,
            match dir {
                Some(d) => match resize_dir_of(d@) {
                    Some(r) => seq![Effect::ResizeMenu(r)],
                    None => Seq::empty(),
                },
                None => Seq::empty(),
            },
        ),
        ClientEvent::UnknownMessage => (s, Seq::empty()),
        ClientEvent::GameCloseRequested => (s, seq![Effect::Exit]),
        ClientEvent::OverlayCloseRequested => hide_menu(s),
    }
}

/// Whether the process was started in play mode (`--play` among its arguments).
pub open spec fn has_play_flag(args: Seq<Seq<char>>) -> bool {
    args.contains("--play"@)
}

/// The state at startup and its effects: a process started in play mode, or
/// one whose settings skip the menu, starts the game at once; any other
/// opens on the menu.
pub open spec fn launch_of(config: ConfigView, args: Seq<Seq<char>>) -> (ClientStateView, Seq<Effect>) {
    let auto_play = has_play_flag(args) || !config.open_menu_on_startup;
    (
        ClientStateView {
            menu_open: !auto_play,
            in_game: auto_play,
            config,
            startup_args: browser_args(config),
        },
        if auto_play {
            seq![Effect::StartGame]
        } else {
            Seq::empty()
        },
    )
}

impl ClientState {
    /// The state of a freshly started client and the effects to carry out
    /// once the windows exist.
    pub fn launch(config: Config, args: &Vec<String>) -> (r: (ClientState, Vec<Effect>))
        ensures
            r.0@ == launch_of(config@, crate::config::strings_view(args@)).0,
            r.1@ == launch_of(config@, crate::config::strings_view(args@)).1,
    {
        let force_play = crate::flags::contains_str(args, "--play");
        let auto_play = force_play || !config.open_menu_on_startup;
        let startup_args = build_browser_args(&config);
        let mut effects: Vec<Effect> = Vec::new();
        if auto_play {
            effects.push(Effect::StartGame);
        }
        assert(effects@ =~= launch_of(config@, crate::config::strings_view(args@)).1);
        (ClientState { menu_open: !auto_play, in_game: auto_play, config, startup_args }, effects)
    }

    /// Hide the menu and hand focus back to a running game.
    fn hide_menu(&mut self) -> (effects: Vec<Effect>)
        ensures
            final(self)@ == hide_menu(old(self)@).0,
            effects@ == hide_menu(old(self)@).1,
    {
        self.menu_open = false;
        let mut effects: Vec<Effect> = Vec::new();
        effects.push(Effect::SetMenuVisible(false));
        if self.in_game {
            effects.push(Effect::FocusGame);
        }
        assert(effects@ =~= hide_menu(old(self)@).1);
        effects
    }

    /// Take one event: update the state and return the effects to carry out.
    pub fn handle(&mut self, event: ClientEvent) -> (effects: Vec<Effect>)
        ensures
            final(self)@ == next(old(self)@, event).0,
            effects@ == next(old(self)@, event).1,
    {
        let ghost s0 = self@;
        let ghost e0 = event;
        let mut effects: Vec<Effect> = Vec::new();
        match event {
            ClientEvent::ToggleMenu => {
                self.menu_open = !self.menu_open;
                effects.push(Effect::SetMenuVisible(self.menu_open));
                if self.menu_open {
                    effects.push(Effect::FocusMenu);
                    effects.push(Effect::SendConfig);
                } else if self.in_game {
                    effects.push(Effect::FocusGame);
                }
                assert(effects@ =~= next(s0, e0).1);
            },
            ClientEvent::MenuReady => {
                effects.push(Effect::SendConfig);
                assert(effects@ =~= next(s0, e0).1);
            },
            ClientEvent::Play { config } => {
                if let Some(c) = config {
                    self.config = c;
                }
                effects.push(Effect::SaveConfig);
                let new_args = build_browser_args(&self.config);
                if !self.in_game && new_args.eq(&self.startup_args) {
                    effects.push(Effect::StartGame);
                    self.in_game = true;
                    self.menu_open = false;
                } else {
                    effects.push(Effect::Relaunch);
                    effects.push(Effect::Exit);
                }
                assert(effects@ =~= next(s0, e0).1);
            },
            ClientEvent::Throttle { rate_bits } => {
                if let Some(b) = rate_bits {
                    self.config.cpu_throttle_bits = b;
                    if self.in_game {
                        effects.push(Effect::ApplyCpuThrottle);
                    }
                    effects.push(Effect::SaveConfig);
                }
                assert(effects@ =~= next(s0, e0).1);
            },
            ClientEvent::Priority { level } => {
                if let Some(v) = level {
                    self.config.priority = v;
                    effects.push(Effect::ApplyPriority);
                    effects.push(Effect::SaveConfig);
                }
                assert(effects@ =~= next(s0, e0).1);
            },
            ClientEvent::OpenDevtools => {
                if self.in_game {
                    effects.push(Effect::OpenDevtools);
                }
                assert(effects@ =~= next(s0, e0).1);
            },
            ClientEvent::CloseMenu => {
                effects = self.hide_menu();
            },
            ClientEvent::Quit => {
                effects.push(Effect::Exit);
                assert(effects@ =~= next(s0, e0).1);
            },
            ClientEvent::DragMenu => {
                effects.push(Effect::DragMenu);
                assert(effects@ =~= next(s0, e0).1);
            },
            ClientEvent::ResizeMenu { dir } => {
                if let Some(d) = dir {
                    if let Some(r) = resize_dir(d.as_str()) {
                        effects.push(Effect::ResizeMenu(r));
                    }
                }
                assert(effects@ =~= next(s0, e0).1);
            },
            ClientEvent::UnknownMessage => {
                assert(effects@ =~= next(s0, e0).1);
            },
            ClientEvent::GameCloseRequested => {
                effects.push(Effect::Exit);
                assert(effects@ =~= next(s0, e0).1);
            },
            ClientEvent::OverlayCloseRequested => {
                effects = self.hide_menu();
            },
        }
        effects
    }
}


/// Pressing the menu hotkey twice leaves the state as it was.
pub proof fn lemma_toggle_twice_restores(s: ClientStateView)
    ensures
        next(next(s, ClientEvent::ToggleMenu).0, ClientEvent::ToggleMenu).0 == s,
{
}

/// The browser arguments a process started with never change while it runs.
pub proof fn lemma_startup_args_fixed(s: ClientStateView, e: ClientEvent)
    ensures
        next(s, e).0.startup_args == s.startup_args,
{
}

/// Once a game runs in this process it keeps running until the process exits.
pub proof fn lemma_game_stays_running(s: ClientStateView, e: ClientEvent)
    requires
        s.in_game,
    ensures
        next(s, e).0.in_game,
{
}

/// Every visibility change of the menu window matches the state's
/// `menu_open` after the step.
pub proof fn lemma_visibility_tracks_state(s: ClientStateView, e: ClientEvent, b: bool)
    requires
        next(s, e).1.contains(Effect::SetMenuVisible(b)),
    ensures
        b == next(s, e).0.menu_open,
{
}

/// Settings that apply live (CPU throttle, process priority, developer
/// tools) never restart the game, relaunch or exit, and leave whether a game
/// runs unchanged.
pub proof fn lemma_live_settings_apply_in_place(s: ClientStateView, e: ClientEvent)
    requires
        e is Throttle || e is Priority || e is OpenDevtools,
    ensures
        !next(s, e).1.contains(Effect::Relaunch),
        !next(s, e).1.contains(Effect::Exit),
        !next(s, e).1.contains(Effect::StartGame),
        next(s, e).0.in_game == s.in_game,
        next(s, e).0.startup_args == s.startup_args,
{
}

/// Play while a game already runs, or with settings whose browser arguments
/// differ from the ones this process started with, saves the settings and
/// relaunches: WebView2 honours one set of browser flags per process.
pub proof fn lemma_play_relaunches_when_flags_fixed(s: ClientStateView, config: Option<Config>)
    requires
        s.in_game || browser_args(
            match config {
                Some(c) => c@,
                None => s.config,
            },
        ) != s.startup_args,
    ensures
        next(s, ClientEvent::Play { config }).1 == seq![Effect::SaveConfig, Effect::Relaunch, Effect::Exit],
{
}

/// A client that opened on its menu, played with settings that give the
/// same browser arguments as at startup, starts the game in this process
/// and hides the menu.
pub proof fn lemma_play_from_menu_starts_in_process(config: ConfigView, args: Seq<Seq<char>>, played: Config)
    requires
        !launch_of(config, args).0.in_game,
        browser_args(played@) == browser_args(config),
    ensures
        ({
            let (s1, effects) = next(launch_of(config, args).0, ClientEvent::Play { config: Some(played) });
            &&& effects == seq![Effect::SaveConfig, Effect::StartGame]
            &&& s1.in_game
            &&& !s1.menu_open
            &&& s1.config == played@
        }),
{
}

/// Closing the overlay window only hides the menu; closing the game window
/// exits.
pub proof fn lemma_overlay_close_hides_game_close_exits(s: ClientStateView)
    ensures
        !next(s, ClientEvent::OverlayCloseRequested).1.contains(Effect::Exit),
        !next(s, ClientEvent::OverlayCloseRequested).0.menu_open,
        next(s, ClientEvent::OverlayCloseRequested).1.contains(Effect::SetMenuVisible(false)),
        next(s, ClientEvent::GameCloseRequested).1 == seq![Effect::Exit],
{
    assert(next(s, ClientEvent::OverlayCloseRequested).1[0] == Effect::SetMenuVisible(false));
}


/// Play with settings from the menu always adopts them, whether the game
/// then starts in this process or the client relaunches: the settings that
/// are saved and handed on are the ones the user sent.
pub proof fn lemma_play_adopts_sent_settings(s: ClientStateView, c: Config)
    ensures
        next(s, ClientEvent::Play { config: Some(c) }).0.config == c@,
        next(s, ClientEvent::Play { config: Some(c) }).1[0] == Effect::SaveConfig,
{
}

/// Play without readable settings keeps the current ones.
pub proof fn lemma_play_without_settings_keeps_them(s: ClientStateView)
    ensures
        next(s, ClientEvent::Play { config: None }).0.config == s.config,
{
}

/// A process fixes its browser arguments from the settings it was started
/// with, in play mode as on the menu: a relaunch made to apply changed
/// flags runs with exactly those flags.
pub proof fn lemma_launch_fixes_args_from_settings(config: ConfigView, args: Seq<Seq<char>>)
    ensures
        launch_of(config, args).0.startup_args == browser_args(config),
        launch_of(config, args).0.config == config,
        launch_of(config, args.push("--play"@)).0.in_game,
        launch_of(config, args.push("--play"@)).0.startup_args == browser_args(config),
{
    assert(args.push("--play"@)[args.len() as int] == "--play"@);
}


/// The hotkey flips the menu; opening it shows it, focuses it and pushes the
/// settings into it; closing it hides it and hands focus back to a running
/// game. Nothing else changes.
pub proof fn lemma_toggle_effects(s: ClientStateView)
    ensures
        next(s, ClientEvent::ToggleMenu).0.menu_open == !s.menu_open,
        next(s, ClientEvent::ToggleMenu).0.in_game == s.in_game,
        next(s, ClientEvent::ToggleMenu).0.config == s.config,
        !s.menu_open ==> next(s, ClientEvent::ToggleMenu).1 == seq![
            Effect::SetMenuVisible(true),
            Effect::FocusMenu,
            Effect::SendConfig,
        ],
        s.menu_open && s.in_game ==> next(s, ClientEvent::ToggleMenu).1 == seq![
            Effect::SetMenuVisible(false),
            Effect::FocusGame,
        ],
        s.menu_open && !s.in_game ==> next(s, ClientEvent::ToggleMenu).1 == seq![
            Effect::SetMenuVisible(false),
        ],
{
}

/// A new throttle rate or priority is stored in the settings, applied, and
/// saved; every other setting is kept.
pub proof fn lemma_live_settings_stored(s: ClientStateView, b: u32, level: String)
    ensures
        next(s, (ClientEvent::Throttle { rate_bits: Some(b) })).0.config
            == (ConfigView { cpu_throttle_bits: b, ..s.config }),
        next(s, (ClientEvent::Throttle { rate_bits: Some(b) })).1.contains(Effect::SaveConfig),
        s.in_game ==> next(s, (ClientEvent::Throttle { rate_bits: Some(b) })).1.contains(
            Effect::ApplyCpuThrottle,
        ),
        next(s, (ClientEvent::Priority { level: Some(level) })).0.config
            == (ConfigView { priority: level@, ..s.config }),
        next(s, (ClientEvent::Priority { level: Some(level) })).1 == seq![
            Effect::ApplyPriority,
            Effect::SaveConfig,
        ],
{
    assert(next(s, (ClientEvent::Throttle { rate_bits: Some(b) })).1.last() == Effect::SaveConfig);
    if s.in_game {
        assert(next(s, (ClientEvent::Throttle { rate_bits: Some(b) })).1[0] == Effect::ApplyCpuThrottle);
    }
}

/// Messages that only act on the windows change no state: the menu asking
/// for its settings, quitting, dragging, resizing (by the grip the message
/// names) and opening developer tools in a running game.
pub proof fn lemma_window_messages(s: ClientStateView, dir: String)
    ensures
        next(s, ClientEvent::MenuReady) == (s, seq![Effect::SendConfig]),
        next(s, ClientEvent::Quit) == (s, seq![Effect::Exit]),
        next(s, ClientEvent::DragMenu) == (s, seq![Effect::DragMenu]),
        next(s, ClientEvent::UnknownMessage) == (s, Seq::<Effect>::empty()),
        next(s, (ClientEvent::ResizeMenu { dir: Some(dir) })).0 == s,
        resize_dir_of(dir@) is Some ==> next(s, (ClientEvent::ResizeMenu { dir: Some(dir) })).1 == seq![
            Effect::ResizeMenu(resize_dir_of(dir@)->0),
        ],
        s.in_game ==> next(s, ClientEvent::OpenDevtools).1 == seq![Effect::OpenDevtools],
{
}

/// Each menu message type selects its own event; any other type is ignored.
pub proof fn lemma_message_types(
    kind: Seq<char>,
    config: Option<Config>,
    rate_bits: Option<u32>,
    value: Option<String>,
    dir: Option<String>,
)
    ensures
        (ipc_event_of(kind, config, rate_bits, value, dir) is MenuReady) <==> kind == "ready"@,
        (ipc_event_of(kind, config, rate_bits, value, dir) is Play) <==> kind == "play"@,
        (ipc_event_of(kind, config, rate_bits, value, dir) is Throttle) <==> kind == "throttle"@,
        (ipc_event_of(kind, config, rate_bits, value, dir) is Priority) <==> kind == "priority"@,
        (ipc_event_of(kind, config, rate_bits, value, dir) is OpenDevtools) <==> kind == "devtools"@,
        (ipc_event_of(kind, config, rate_bits, value, dir) is CloseMenu) <==> kind == "close"@,
        (ipc_event_of(kind, config, rate_bits, value, dir) is Quit) <==> kind == "quit"@,
        (ipc_event_of(kind, config, rate_bits, value, dir) is DragMenu) <==> kind == "drag"@,
        (ipc_event_of(kind, config, rate_bits, value, dir) is ResizeMenu) <==> kind == "resize"@,
        kind == "play"@ ==> ipc_event_of(kind, config, rate_bits, value, dir) == (ClientEvent::Play { config }),
        kind == "throttle"@ ==> ipc_event_of(kind, config, rate_bits, value, dir) == (ClientEvent::Throttle { rate_bits }),
        kind == "priority"@ ==> ipc_event_of(kind, config, rate_bits, value, dir) == (ClientEvent::Priority { level: value }),
        kind == "resize"@ ==> ipc_event_of(kind, config, rate_bits, value, dir) == (ClientEvent::ResizeMenu { dir }),
{
    broadcast use vstd::string::group_string_axioms;

    reveal_strlit("ready");
    reveal_strlit("play");
    reveal_strlit("throttle");
    reveal_strlit("priority");
    reveal_strlit("devtools");
    reveal_strlit("close");
    reveal_strlit("quit");
    reveal_strlit("drag");
    reveal_strlit("resize");
    assert("ready"@.len() == 5 && "play"@.len() == 4 && "throttle"@.len() == 8);
    assert("priority"@.len() == 8 && "devtools"@.len() == 8 && "close"@.len() == 5);
    assert("quit"@.len() == 4 && "drag"@.len() == 4 && "resize"@.len() == 6);
    assert("ready"@[0] != "close"@[0]);
    assert("play"@[0] != "quit"@[0] && "play"@[0] != "drag"@[0] && "quit"@[0] != "drag"@[0]);
    assert("throttle"@[0] != "priority"@[0] && "throttle"@[0] != "devtools"@[0]
        && "priority"@[0] != "devtools"@[0]);
}

/// At startup the client opens on its menu exactly when it was not started
/// in play mode and its settings show the menu first; otherwise it starts
/// the game at once, and only then.
pub proof fn lemma_launch_menu_or_play(config: ConfigView, args: Seq<Seq<char>>)
    ensures
        launch_of(config, args).0.menu_open == (!args.contains("--play"@) && config.open_menu_on_startup),
        launch_of(config, args).0.in_game == !launch_of(config, args).0.menu_open,
        launch_of(config, args).1 == (if launch_of(config, args).0.in_game {
            seq![Effect::StartGame]
        } else {
            Seq::<Effect>::empty()
        }),
{
}

} // verus!
