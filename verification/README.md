# wankle-client

Desktop client for Wankle3D built on wry/tao. The decisions of the client are
a verified library; the windows, webviews, hotkey, disk and process handling
sit in a thin binary around it.

## Layout

| Path | Contents |
| --- | --- |
| `src/config.rs` | Settings record, its defaults, the URL it resolves to |
| `src/flags.rs` | Chromium argument builder (curated flags, ANGLE select, toggles, extra flags) and its laws |
| `src/client.rs` | Event handling: state + event → next state + effects, launch state, laws |
| `src/ui.rs` | Resize grips, window mode, hotkey, menu placement, the settings-push script |
| `src/platform.rs` | Process-priority class and the WebView2 processes that receive it |
| `src/text.rs` | String helpers and the model of `str::trim` |
| `app/` | `main`, event loop, settings file (serde), menu page, Win32/WebView2 calls |
| `tests/` | Tests of the library on concrete values |
