//! Decisions about the two windows: the overlay's resize grips, the game
//! window mode, the menu hotkey, the overlay's initial placement and the
//! script that pushes settings into the menu.

use vstd::prelude::*;
use crate::text::str_eq;

verus! {

/// An edge or corner of the overlay window that the user drags to resize it.
#[derive(Clone, Copy, Debug, PartialEq, Eq, Structural)]
pub enum ResizeDir {
    North,
    South,
    East,
    West,
    NorthEast,
    NorthWest,
    SouthEast,
    SouthWest,
}

/// The resize direction named by a menu grip ("n", "ne", ...); none for any
/// other name.
pub open spec fn resize_dir_of(dir: Seq<char>) -> Option<ResizeDir> {
    if dir == "n"@ {
        Some(ResizeDir::North)
    } else if dir == "s"@ {
        Some(ResizeDir::South)
    } else if dir == "e"@ {
        Some(ResizeDir::East)
    } else if dir == "w"@ {
        Some(ResizeDir::West)
    } else if dir == "ne"@ {
        Some(ResizeDir::NorthEast)
    } else if dir == "nw"@ {
        Some(ResizeDir::NorthWest)
    } else if dir == "se"@ {
        Some(ResizeDir::SouthEast)
    } else if dir == "sw"@ {
        Some(ResizeDir::SouthWest)
    } else {
        None
    }
}

/// Map a grip name from the menu to a resize direction.
pub fn resize_dir(dir: &str) -> (r: Option<ResizeDir>)
    ensures
        r == resize_dir_of(dir@),
{
    if str_eq(dir, "n") {
        Some(ResizeDir::North)
    } else if str_eq(dir, "s") {
        Some(ResizeDir::South)
    } else if str_eq(dir, "e") {
        Some(ResizeDir::East)
    } else if str_eq(dir, "w") {
        Some(ResizeDir::West)
    } else if str_eq(dir, "ne") {
        Some(ResizeDir::NorthEast)
    } else if str_eq(dir, "nw") {
        Some(ResizeDir::NorthWest)
    } else if str_eq(dir, "se") {
        Some(ResizeDir::SouthEast)
    } else if str_eq(dir, "sw") {
        Some(ResizeDir::SouthWest)
    } else {
        None
    }
}

/// What to do with the game window for a configured window mode.
#[derive(Clone, Copy, Debug, PartialEq, Eq, Structural)]
pub enum WindowModeAction {
    /// Leave the window as created ("Windowed" and any unknown mode).
    Keep,
    /// Maximize the window.
    Maximize,
    /// Borderless fullscreen on the current monitor.
    BorderlessFullscreen,
}

pub open spec fn window_mode_action_of(mode: Seq<char>) -> WindowModeAction {
    if mode == "Maximized"@ {
        WindowModeAction::Maximize
    } else if mode == "Borderless Fullscreen"@ {
        WindowModeAction::BorderlessFullscreen
    } else {
        WindowModeAction::Keep
    }
}

/// Decide how the game window is shown for a window mode.
pub fn window_mode_action(mode: &str) -> (r: WindowModeAction)
    ensures
        r == window_mode_action_of(mode@),
{
    if str_eq(mode, "Maximized") {
        WindowModeAction::Maximize
    } else if str_eq(mode, "Borderless Fullscreen") {
        WindowModeAction::BorderlessFullscreen
    } else {
        WindowModeAction::Keep
    }
}

/// The keys that can toggle the overlay menu.
#[derive(Clone, Copy, Debug, PartialEq, Eq, Structural)]
pub enum HotkeyCode {
    F1,
    F2,
    Insert,
    Backquote,
}

/// What `str::to_uppercase` returns for a string (Unicode case mapping).
pub uninterp spec fn uppercase_of(s: Seq<char>) -> Seq<char>;

/// `str::to_uppercase`. Its result, the Unicode uppercase mapping of every
/// character, is named and not stated.
#[verifier::external_body]
fn to_uppercase(s: &str) -> (r: String)
    ensures
        r@ == uppercase_of(s@),
{
    s.to_uppercase()
}

/// The key named by an already upper-cased hotkey setting; F1 for any name
/// that is not known.
pub open spec fn hotkey_of_upper(u: Seq<char>) -> HotkeyCode {
    if u == "F1"@ {
        HotkeyCode::F1
    } else if u == "F2"@ {
        HotkeyCode::F2
    } else if u == "INSERT"@ {
        HotkeyCode::Insert
    } else if u == "`"@ || u == "BACKTICK"@ || u == "BACKQUOTE"@ {
        HotkeyCode::Backquote
    } else {
        HotkeyCode::F1
    }
}

/// The key named by an upper-cased hotkey setting.
pub fn hotkey_from_upper(upper: &str) -> (c: HotkeyCode)
    ensures
        c == hotkey_of_upper(upper@),
{
    if str_eq(upper, "F1") {
        HotkeyCode::F1
    } else if str_eq(upper, "F2") {
        HotkeyCode::F2
    } else if str_eq(upper, "INSERT") {
        HotkeyCode::Insert
    } else if str_eq(upper, "`") || str_eq(upper, "BACKTICK") || str_eq(upper, "BACKQUOTE") {
        HotkeyCode::Backquote
    } else {
        HotkeyCode::F1
    }
}

/// The key named by a hotkey setting, matched without regard to case.
pub fn parse_hotkey(s: &str) -> (c: HotkeyCode)
    ensures
        c == hotkey_of_upper(uppercase_of(s@)),
{
    let upper = to_uppercase(s);
    hotkey_from_upper(upper.as_str())
}

/// Half of `d`, rounded toward zero (Rust's integer division by two).
pub open spec fn half_toward_zero(d: int) -> int {
    if d >= 0 {
        d / 2
    } else {
        -((-d) / 2)
    }
}

/// The coordinate that centres a span of `inner` pixels within a span of
/// `outer` pixels starting at `start`, before clamping; sizes are taken as
/// `i32` the way the window system reports them.
pub open spec fn centred_start(start: i32, outer: u32, inner: u32) -> int {
    start + half_toward_zero((outer as i32) - (inner as i32))
}

/// The centred coordinate clamped to be non-negative.
pub open spec fn clamped_centre(start: i32, outer: u32, inner: u32) -> int {
    let c = centred_start(start, outer, inner);
    if c > 0 {
        c
    } else {
        0
    }
}

fn centre_axis(start: i32, outer: u32, inner: u32) -> (r: i32)
    requires
        i32::MIN <= (outer as i32) - (inner as i32) <= i32::MAX,
        i32::MIN <= centred_start(start, outer, inner) <= i32::MAX,
    ensures
        r == clamped_centre(start, outer, inner),
{
    let o: i32 = outer as i32;
    let i: i32 = inner as i32;
    let d: i32 = o - i;
    let half: i32 = if d >= 0 {
        d / 2
    } else {
        // -d may not fit; -(d + 1) always does.
        let m: i32 = -(d + 1);
        -(m / 2 + m % 2)
    };
    let c: i32 = start + half;
    if c > 0 {
        c
    } else {
        0
    }
}

/// Initial position of the floating menu: centred over the game window,
/// never at a negative coordinate. Sizes are the outer sizes in physical
/// pixels; the position is the game window's outer position.
pub fn center_overlay_position(
    game_x: i32,
    game_y: i32,
    game_width: u32,
    game_height: u32,
    overlay_width: u32,
    overlay_height: u32,
) -> (r: (i32, i32))
    requires
        i32::MIN <= (game_width as i32) - (overlay_width as i32) <= i32::MAX,
        i32::MIN <= (game_height as i32) - (overlay_height as i32) <= i32::MAX,
        i32::MIN <= centred_start(game_x, game_width, overlay_width) <= i32::MAX,
        i32::MIN <= centred_start(game_y, game_height, overlay_height) <= i32::MAX,
    ensures
        r.0 == clamped_centre(game_x, game_width, overlay_width),
        r.1 == clamped_centre(game_y, game_height, overlay_height),
{
    (centre_axis(game_x, game_width, overlay_width), centre_axis(game_y, game_height, overlay_height))
}


/// Each resize direction has exactly one grip name.
pub proof fn lemma_resize_names_distinct(a: Seq<char>, b: Seq<char>)
    requires
        resize_dir_of(a) is Some,
        resize_dir_of(a) == resize_dir_of(b),
    ensures
        a == b,
{
}

/// The menu is centred over the game: when the centre of the game window
/// minus half the menu width is not negative, the gaps left and right of
/// the menu differ by at most one pixel, the extra pixel on the right; a
/// game window partly off screen (negative start) is no exception.
pub proof fn lemma_overlay_centred(start: i32, outer: u32, inner: u32)
    requires
        inner <= outer <= i32::MAX,
        start + (outer - inner) / 2 >= 0,
    ensures
        ({
            let c = clamped_centre(start, outer, inner);
            let left = c - start;
            let right = (start + outer) - (c + inner);
            left <= right <= left + 1
        }),
{
    assert((outer as i32) == outer);
    assert((inner as i32) == inner);
}

/// The position is `start` plus half the size difference rounded toward
/// zero, raised to zero when negative: for sizes that fit in `i32`, and any
/// `t` with `2t` the difference moved toward zero by at most one, the
/// result is `max(0, start + t)`.
pub proof fn lemma_overlay_position_arithmetic(start: i32, outer: u32, inner: u32, t: int)
    requires
        outer <= i32::MAX,
        inner <= i32::MAX,
        outer >= inner ==> outer - inner - 1 <= 2 * t <= outer - inner,
        outer < inner ==> outer - inner <= 2 * t <= outer - inner + 1,
    ensures
        clamped_centre(start, outer, inner) == if start + t > 0 {
            start + t
        } else {
            0
        },
        clamped_centre(start, outer, inner) >= 0,
{
    assert((outer as i32) == outer);
    assert((inner as i32) == inner);
}

#[verifier::external_type_specification]
#[verifier::external_body]
pub struct ExJsonError(serde_json::Error);

/// The lower-case hexadecimal digit of a value below sixteen.
pub open spec fn hex_digit(d: int) -> char {
    if d < 10 {
        (d + 48) as char
    } else {
        (d + 87) as char
    }
}

/// How a JSON string literal writes one character: quote and backslash
/// behind a backslash; backspace, tab, line feed, form feed and carriage
/// return as `\b \t \n \f \r`; every other character below U+0020 as
/// `\u00` and two lower-case hex digits; anything else as itself.
pub open spec fn json_escape_char(c: char) -> Seq<char> {
    if c == '"' {
        seq!['\\', '"']
    } else if c == '\\' {
        seq!['\\', '\\']
    } else if c == '\u{8}' {
        seq!['\\', 'b']
    } else if c == '\t' {
        seq!['\\', 't']
    } else if c == '\n' {
        seq!['\\', 'n']
    } else if c == '\u{c}' {
        seq!['\\', 'f']
    } else if c == '\r' {
        seq!['\\', 'r']
    } else if (c as int) < 0x20 {
        seq!['\\', 'u', '0', '0', hex_digit((c as int) / 16), hex_digit((c as int) % 16)]
    } else {
        seq![c]
    }
}

/// The escaped body of the JSON string literal of `s`.
pub open spec fn json_escape(s: Seq<char>) -> Seq<char>
    decreases s.len(),
{
    if s.len() == 0 {
        Seq::empty()
    } else {
        json_escape_char(s[0]) + json_escape(s.drop_first())
    }
}

/// The JSON string literal of `s`.
pub open spec fn json_string_literal(s: Seq<char>) -> Seq<char> {
    seq!['"'] + json_escape(s) + seq!['"']
}

/// `serde_json::to_string` on a `str`: writes the string literal with the
/// escapes of its compact formatter. Its writer is a `Vec`, which never
/// fails, so the result is always `Ok`.
#[verifier::external_body]
fn json_to_string(s: &str) -> (r: Result<String, serde_json::Error>)
    ensures
        r is Ok,
        r matches Ok(v) ==> v@ == json_string_literal(s@),
{
    serde_json::to_string(s)
}

/// A character that JSON leaves unescaped inside a string.
pub open spec fn is_plain_json_char(c: char) -> bool {
    c != '"' && c != '\\' && (c as int) >= 0x20
}

/// A character that may follow a backslash in a two-character JSON escape.
pub open spec fn is_short_escape(c: char) -> bool {
    c == '"' || c == '\\' || c == '/' || c == 'b' || c == 'f' || c == 'n' || c == 'r' || c == 't'
}

pub open spec fn is_hex_digit(c: char) -> bool {
    ('0' <= c && c <= '9') || ('a' <= c && c <= 'f') || ('A' <= c && c <= 'F')
}

/// `t` is the body of a JSON string: plain characters and escape sequences
/// only, so no character of it can end the string.
pub open spec fn is_json_string_body(t: Seq<char>) -> bool
    decreases t.len(),
{
    if t.len() == 0 {
        true
    } else if t[0] == '\\' {
        ||| (t.len() >= 2 && is_short_escape(t[1]) && is_json_string_body(t.subrange(2, t.len() as int)))
        ||| (t.len() >= 6 && t[1] == 'u' && is_hex_digit(t[2]) && is_hex_digit(t[3]) && is_hex_digit(t[4])
            && is_hex_digit(t[5]) && is_json_string_body(t.subrange(6, t.len() as int)))
    } else {
        is_plain_json_char(t[0]) && is_json_string_body(t.drop_first())
    }
}

proof fn lemma_escape_char_then_body(c: char, t: Seq<char>)
    requires
        is_json_string_body(t),
    ensures
        is_json_string_body(json_escape_char(c) + t),
{
    let u = json_escape_char(c) + t;
    let e = json_escape_char(c);
    if e.len() == 2 {
        assert(u.subrange(2, u.len() as int) =~= t);
    } else if e.len() == 6 {
        assert(u.subrange(6, u.len() as int) =~= t);
        let v = c as int;
        assert(0 <= v / 16 < 2);
        assert(0 <= v % 16 < 16);
    } else {
        assert(u.drop_first() =~= t);
    }
}

/// The OS name reaches the menu as one JSON string literal: it opens and
/// closes with a quote and holds only plain characters and escapes between,
/// so no OS text can end the literal and inject script.
pub proof fn lemma_json_literal_is_closed(s: Seq<char>)
    ensures
        json_string_literal(s)[0] == '"',
        json_string_literal(s).last() == '"',
        is_json_string_body(json_escape(s)),
        json_string_literal(s).subrange(1, json_string_literal(s).len() - 1) == json_escape(s),
    decreases s.len(),
{
    if s.len() > 0 {
        lemma_json_literal_is_closed(s.drop_first());
        lemma_escape_char_then_body(s[0], json_escape(s.drop_first()));
    }
    let l = json_string_literal(s);
    assert(l.subrange(1, l.len() - 1) =~= json_escape(s));
}

/// Encode the OS name as a JSON string for the menu.
pub fn os_json(os: &str) -> (r: String)
    ensures
        r@ == json_string_literal(os@),
{
    json_to_string(os).unwrap()
}

/// The script that hands the menu its settings: `config_json` and `os_json`
/// are JSON texts, `in_game` is written as `true` or `false`.
pub open spec fn apply_config_script_of(config_json: Seq<char>, os_json: Seq<char>, in_game: bool) -> Seq<char> {
    "window.applyConfig && window.applyConfig("@ + config_json + ", "@ + os_json + ", "@
        + (if in_game { "true"@ } else { "false"@ }) + ");"@
}

/// Build the script that pushes settings into the menu page.
pub fn apply_config_script(config_json: &str, os_json: &str, in_game: bool) -> (r: String)
    ensures
        r@ == apply_config_script_of(config_json@, os_json@, in_game),
{
    let mut r = "window.applyConfig && window.applyConfig(".to_owned();
    r.append(config_json);
    r.append(", ");
    r.append(os_json);
    r.append(", ");
    if in_game {
        r.append("true");
    } else {
        r.append("false");
    }
    r.append(");");
    r
}

/// The script that pushes the serialised settings, the OS name and whether a
/// game is running into the menu page.
pub fn menu_config_script(config_json: &str, os: &str, in_game: bool) -> (r: String)
    ensures
        r@ == apply_config_script_of(config_json@, json_string_literal(os@), in_game),
{
    let os_text = os_json(os);
    apply_config_script(config_json, os_text.as_str(), in_game)
}


/// Each grip name selects its own direction, and nothing else selects one.
pub proof fn lemma_resize_grip_names(dir: Seq<char>)
    ensures
        (resize_dir_of(dir) == Some(ResizeDir::North)) <==> dir == "n"@,
        (resize_dir_of(dir) == Some(ResizeDir::South)) <==> dir == "s"@,
        (resize_dir_of(dir) == Some(ResizeDir::East)) <==> dir == "e"@,
        (resize_dir_of(dir) == Some(ResizeDir::West)) <==> dir == "w"@,
        (resize_dir_of(dir) == Some(ResizeDir::NorthEast)) <==> dir == "ne"@,
        (resize_dir_of(dir) == Some(ResizeDir::NorthWest)) <==> dir == "nw"@,
        (resize_dir_of(dir) == Some(ResizeDir::SouthEast)) <==> dir == "se"@,
        (resize_dir_of(dir) == Some(ResizeDir::SouthWest)) <==> dir == "sw"@,
{
    broadcast use vstd::string::group_string_axioms;

    reveal_strlit("n");
    reveal_strlit("s");
    reveal_strlit("e");
    reveal_strlit("w");
    reveal_strlit("ne");
    reveal_strlit("nw");
    reveal_strlit("se");
    reveal_strlit("sw");
    assert("n"@.len() == 1 && "s"@.len() == 1 && "e"@.len() == 1 && "w"@.len() == 1);
    assert("ne"@.len() == 2 && "nw"@.len() == 2 && "se"@.len() == 2 && "sw"@.len() == 2);
    assert("n"@[0] != "s"@[0] && "n"@[0] != "e"@[0] && "n"@[0] != "w"@[0]);
    assert("s"@[0] != "e"@[0] && "s"@[0] != "w"@[0] && "e"@[0] != "w"@[0]);
    assert("ne"@[0] != "se"@[0] && "ne"@[1] != "nw"@[1] && "nw"@[0] != "sw"@[0]);
    assert("se"@[1] != "sw"@[1] && "ne"@[0] != "sw"@[0] && "nw"@[0] != "se"@[0]);
}

/// "Maximized" maximizes, "Borderless Fullscreen" goes fullscreen, and
/// every other mode (Windowed included) leaves the window as created.
pub proof fn lemma_window_mode_names(mode: Seq<char>)
    ensures
        (window_mode_action_of(mode) == WindowModeAction::Maximize) <==> mode == "Maximized"@,
        (window_mode_action_of(mode) == WindowModeAction::BorderlessFullscreen) <==> mode
            == "Borderless Fullscreen"@,
        window_mode_action_of("Windowed"@) == WindowModeAction::Keep,
{
    broadcast use vstd::string::group_string_axioms;

    reveal_strlit("Maximized");
    reveal_strlit("Borderless Fullscreen");
    reveal_strlit("Windowed");
    assert("Maximized"@.len() == 9 && "Borderless Fullscreen"@.len() == 21 && "Windowed"@.len() == 8);
}

/// F1, F2 and Insert select their keys; "`", "BACKTICK" and "BACKQUOTE"
/// select the backquote key; any other upper-cased name falls back to F1.
pub proof fn lemma_hotkey_names(u: Seq<char>)
    ensures
        (hotkey_of_upper(u) == HotkeyCode::F2) <==> u == "F2"@,
        (hotkey_of_upper(u) == HotkeyCode::Insert) <==> u == "INSERT"@,
        (hotkey_of_upper(u) == HotkeyCode::Backquote) <==> (u == "`"@ || u == "BACKTICK"@ || u
            == "BACKQUOTE"@),
        (hotkey_of_upper(u) == HotkeyCode::F1) <==> (u != "F2"@ && u != "INSERT"@ && u != "`"@
            && u != "BACKTICK"@ && u != "BACKQUOTE"@),
{
    broadcast use vstd::string::group_string_axioms;

    reveal_strlit("F1");
    reveal_strlit("F2");
    reveal_strlit("INSERT");
    reveal_strlit("`");
    reveal_strlit("BACKTICK");
    reveal_strlit("BACKQUOTE");
    assert("F1"@.len() == 2 && "F2"@.len() == 2 && "INSERT"@.len() == 6 && "`"@.len() == 1);
    assert("BACKTICK"@.len() == 8 && "BACKQUOTE"@.len() == 9 && "F1"@[1] != "F2"@[1]);
}

} // verus!
