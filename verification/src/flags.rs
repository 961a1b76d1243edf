//! The Chromium command line handed to WebView2: a curated set of generic
//! performance switches, the ANGLE backend select, the frame-rate and GPU
//! toggles and the user's own flags, joined by single spaces.

use vstd::prelude::*;
use crate::config::{Config, ConfigView, strings_view};
use crate::text::{str_eq, trim, trim_chars};

verus! {

/// The curated generic performance switches, in order.
pub open spec fn default_flags() -> Seq<Seq<char>> {
    seq![
        "--enable-features=BlinkCompositorUseDisplayThreadPriority,GpuUseDisplayThreadPriority,BrowserUseDisplayThreadPriority,JavaScriptExperimentalSharedMemory,WebAssemblyBaseline,WebAssemblyTiering,WebAssemblyLazyCompilation,V8VmFuture"@,
        "--disable-features=msSmartScreenProtection,CalculateNativeWinOcclusion,HappinessTrackingSurveysForDesktopDemo,site-isolation-trial-opt-out,MediaRouter,PerformanceInterventionUI,IPH_DemoMode"@,
        "--ignore-gpu-blocklist"@,
        "--enable-gpu-rasterization"@,
        "--enable-zero-copy"@,
        "--enable-native-gpu-memory-buffers"@,
        "--enable-threaded-compositing"@,
        "--disable-gpu-driver-bug-workarounds"@,
        "--disable-gpu-watchdog"@,
        "--disable-background-timer-throttling"@,
        "--disable-renderer-backgrounding"@,
        "--disable-backgrounding-occluded-windows"@,
        "--disable-low-end-device-mode"@,
        "--disable-hang-monitor"@,
        "--disable-component-update"@,
        "--enable-quic"@,
        "--no-pings"@,
        "--autoplay-policy=no-user-gesture-required"@,
    ]
}

/// The curated default flags. Multi-value `--enable-features` /
/// `--disable-features` are consolidated into one switch each.
pub fn default_flag_list() -> (v: Vec<&'static str>)
    ensures
        v@.map_values(|s: &str| s@) == default_flags(),
{
    let v: Vec<&'static str> = vec![
        "--enable-features=BlinkCompositorUseDisplayThreadPriority,GpuUseDisplayThreadPriority,BrowserUseDisplayThreadPriority,JavaScriptExperimentalSharedMemory,WebAssemblyBaseline,WebAssemblyTiering,WebAssemblyLazyCompilation,V8VmFuture",
        "--disable-features=msSmartScreenProtection,CalculateNativeWinOcclusion,HappinessTrackingSurveysForDesktopDemo,site-isolation-trial-opt-out,MediaRouter,PerformanceInterventionUI,IPH_DemoMode",
        "--ignore-gpu-blocklist",
        "--enable-gpu-rasterization",
        "--enable-zero-copy",
        "--enable-native-gpu-memory-buffers",
        "--enable-threaded-compositing",
        "--disable-gpu-driver-bug-workarounds",
        "--disable-gpu-watchdog",
        "--disable-background-timer-throttling",
        "--disable-renderer-backgrounding",
        "--disable-backgrounding-occluded-windows",
        "--disable-low-end-device-mode",
        "--disable-hang-monitor",
        "--disable-component-update",
        "--enable-quic",
        "--no-pings",
        "--autoplay-policy=no-user-gesture-required",
    ];
    assert(v@.map_values(|s: &str| s@) =~= default_flags());
    v
}


/// The default flags that survive the user's exact-match opt-outs.
pub open spec fn kept_default_flags(disabled: Seq<Seq<char>>) -> Seq<Seq<char>> {
    default_flags().filter(|f: Seq<char>| !disabled.contains(f))
}

/// The ANGLE backend switch for a rendering API; none for "auto" and for
/// any name that is not a known backend.
pub open spec fn angle_flags(api: Seq<char>) -> Seq<Seq<char>> {
    if api == "d3d11"@ {
        seq!["--use-angle=d3d11"@]
    } else if api == "d3d9"@ {
        seq!["--use-angle=d3d9"@]
    } else if api == "gl"@ {
        seq!["--use-angle=gl"@]
    } else if api == "vulkan"@ {
        seq!["--use-angle=vulkan"@]
    } else if api == "swiftshader"@ {
        seq!["--use-angle=swiftshader"@]
    } else {
        Seq::empty()
    }
}

/// The switches that lift the frame-rate cap and vsync.
pub open spec fn fps_unlock_flags(unlock: bool) -> Seq<Seq<char>> {
    if unlock {
        seq!["--disable-frame-rate-limit"@, "--disable-gpu-vsync"@]
    } else {
        Seq::empty()
    }
}

/// The switch that turns GPU acceleration off.
pub open spec fn gpu_flags(gpu_acceleration: bool) -> Seq<Seq<char>> {
    if gpu_acceleration {
        Seq::empty()
    } else {
        seq!["--disable-gpu"@]
    }
}

/// The user's extra flags, each trimmed, blank ones dropped.
pub open spec fn extra_flag_list(extra: Seq<Seq<char>>) -> Seq<Seq<char>> {
    extra.map_values(|f: Seq<char>| trim_chars(f)).filter(|f: Seq<char>| f.len() > 0)
}

/// Every flag passed to the browser, in order.
pub open spec fn browser_flags(c: ConfigView) -> Seq<Seq<char>> {
    kept_default_flags(c.disabled_default_flags) + angle_flags(c.rendering_api)
        + fps_unlock_flags(c.fps_unlock) + gpu_flags(c.gpu_acceleration)
        + extra_flag_list(c.extra_flags)
}

/// The parts joined with `sep` between neighbours.
pub open spec fn join_with(parts: Seq<Seq<char>>, sep: Seq<char>) -> Seq<char>
    decreases parts.len(),
{
    if parts.len() == 0 {
        Seq::empty()
    } else if parts.len() == 1 {
        parts[0]
    } else {
        join_with(parts.drop_last(), sep) + sep + parts.last()
    }
}

/// The full browser argument string of a configuration.
pub open spec fn browser_args(c: ConfigView) -> Seq<char> {
    join_with(browser_flags(c), " "@)
}

/// Whether `s` is one of the strings of `v`.
pub fn contains_str(v: &Vec<String>, s: &str) -> (r: bool)
    ensures
        r == strings_view(v@).contains(s@),
{
    let n = v.len();
    for i in 0..n
        invariant
            n == v@.len(),
            forall|j: int| 0 <= j < i ==> v@[j]@ != s@,
    {
        if str_eq(v[i].as_str(), s) {
            assert(strings_view(v@)[i as int] == s@);
            return true;
        }
    }
    assert forall|j: int| 0 <= j < strings_view(v@).len() implies strings_view(v@)[j] != s@ by {
        assert(v@[j]@ != s@);
    }
    false
}

/// The strings joined with single spaces.
pub fn join_spaces(parts: &Vec<String>) -> (r: String)
    ensures
        r@ == join_with(strings_view(parts@), " "@),
{
    let mut r = String::new();
    let n = parts.len();
    let ghost ps = strings_view(parts@);
    for i in 0..n
        invariant
            n == parts@.len(),
            ps == strings_view(parts@),
            r@ == join_with(ps.take(i as int), " "@),
    {
        assert(ps.take(i + 1).drop_last() =~= ps.take(i as int));
        if i > 0 {
            r.append(" ");
        }
        r.append(parts[i].as_str());
        assert(ps.take(i + 1).last() == parts@[i as int]@);
        assert(i == 0 ==> ps.take(1) =~= seq![parts@[0]@]);
    }
    assert(ps.take(n as int) =~= ps);
    r
}

proof fn lemma_extra_push(extra: Seq<Seq<char>>, f: Seq<char>)
    ensures
        extra_flag_list(extra.push(f)) == if trim_chars(f).len() > 0 {
            extra_flag_list(extra).push(trim_chars(f))
        } else {
            extra_flag_list(extra)
        },
{
    let tr = |g: Seq<char>| trim_chars(g);
    let nonblank = |g: Seq<char>| g.len() > 0;
    assert(extra.push(f).map_values(tr) =~= extra.map_values(tr).push(trim_chars(f)));
    extra.map_values(tr).lemma_filter_push(trim_chars(f), nonblank);
}

/// Build the full additional-browser-args string from a configuration.
pub fn build_browser_args(cfg: &Config) -> (r: String)
    ensures
        r@ == browser_args(cfg@),
{
    let mut flags: Vec<String> = Vec::new();
    let defaults = default_flag_list();
    let ghost disabled = cfg@.disabled_default_flags;
    let ghost keep = |f: Seq<char>| !disabled.contains(f);
    let ghost dv = defaults@.map_values(|s: &str| s@);
    let nd = defaults.len();
    for i in 0..nd
        invariant
            nd == defaults@.len(),
            dv == defaults@.map_values(|s: &str| s@),
            dv == default_flags(),
            disabled == cfg@.disabled_default_flags,
            keep == (|f: Seq<char>| !disabled.contains(f)),
            strings_view(flags@) == dv.take(i as int).filter(keep),
    {
        let f: &str = defaults[i];
        assert(dv.take(i + 1) =~= dv.take(i as int).push(f@));
        proof { dv.take(i as int).lemma_filter_push(f@, keep); }
        if !contains_str(&cfg.disabled_default_flags, f) {
            flags.push(f.to_owned());
        }
        assert(strings_view(flags@) =~= dv.take(i + 1).filter(keep));
    }
    assert(dv.take(nd as int) =~= dv);
    let ghost after_defaults = strings_view(flags@);
    assert(after_defaults == kept_default_flags(disabled));

    // Rendering API select (ANGLE backend); "auto" lets the engine decide.
    let api = cfg.rendering_api.as_str();
    if str_eq(api, "d3d11") {
        flags.push("--use-angle=d3d11".to_owned());
    } else if str_eq(api, "d3d9") {
        flags.push("--use-angle=d3d9".to_owned());
    } else if str_eq(api, "gl") {
        flags.push("--use-angle=gl".to_owned());
    } else if str_eq(api, "vulkan") {
        flags.push("--use-angle=vulkan".to_owned());
    } else if str_eq(api, "swiftshader") {
        flags.push("--use-angle=swiftshader".to_owned());
    }
    assert(strings_view(flags@) =~= after_defaults + angle_flags(cfg@.rendering_api));
    let ghost after_angle = strings_view(flags@);

    if cfg.fps_unlock {
        flags.push("--disable-frame-rate-limit".to_owned());
        flags.push("--disable-gpu-vsync".to_owned());
    }
    assert(strings_view(flags@) =~= after_angle + fps_unlock_flags(cfg.fps_unlock));
    let ghost after_fps = strings_view(flags@);

    if !cfg.gpu_acceleration {
        flags.push("--disable-gpu".to_owned());
    }
    assert(strings_view(flags@) =~= after_fps + gpu_flags(cfg.gpu_acceleration));
    let ghost before_extra = strings_view(flags@);

    let ghost ev = cfg@.extra_flags;
    let ne = cfg.extra_flags.len();
    for i in 0..ne
        invariant
            ne == cfg.extra_flags@.len(),
            ev == cfg@.extra_flags,
            strings_view(flags@) == before_extra + extra_flag_list(ev.take(i as int)),
    {
        let f = trim(cfg.extra_flags[i].as_str());
        proof {
            assert(ev.take(i + 1) =~= ev.take(i as int).push(cfg.extra_flags@[i as int]@));
            lemma_extra_push(ev.take(i as int), cfg.extra_flags@[i as int]@);
        }
        let ghost prev = strings_view(flags@);
        if !f.is_empty() {
            flags.push(f.to_owned());
            assert(strings_view(flags@) =~= prev.push(f@));
        }
        assert(strings_view(flags@) =~= before_extra + extra_flag_list(ev.take(i + 1)));
    }
    assert(ev.take(ne as int) =~= ev);
    assert(strings_view(flags@) =~= browser_flags(cfg@));
    join_spaces(&flags)
}


/// Opting out of a default flag removes it; every default flag the user did
/// not opt out of is kept.
pub proof fn lemma_default_opt_out(disabled: Seq<Seq<char>>, f: Seq<char>)
    requires
        default_flags().contains(f),
    ensures
        kept_default_flags(disabled).contains(f) <==> !disabled.contains(f),
{
    let keep = |g: Seq<char>| !disabled.contains(g);
    let kept = default_flags().filter(keep);
    if disabled.contains(f) {
        if kept.contains(f) {
            let i = choose|i: int| 0 <= i < kept.len() && kept[i] == f;
            default_flags().lemma_filter_pred(keep, i);
        }
    } else {
        let i = choose|i: int| 0 <= i < default_flags().len() && default_flags()[i] == f;
        default_flags().lemma_filter_contains(keep, i);
    }
}

/// Every non-blank extra flag is passed, trimmed, and the extra flags come
/// last, after the curated and toggled ones.
pub proof fn lemma_extra_flags_appended(c: ConfigView, i: int)
    requires
        0 <= i < c.extra_flags.len(),
        trim_chars(c.extra_flags[i]).len() > 0,
    ensures
        browser_flags(c).contains(trim_chars(c.extra_flags[i])),
        browser_flags(c).subrange(
            browser_flags(c).len() - extra_flag_list(c.extra_flags).len(),
            browser_flags(c).len() as int,
        ) == extra_flag_list(c.extra_flags),
{
    let tr = |g: Seq<char>| trim_chars(g);
    let nonblank = |g: Seq<char>| g.len() > 0;
    let mapped = c.extra_flags.map_values(tr);
    assert(mapped[i] == trim_chars(c.extra_flags[i]));
    mapped.lemma_filter_contains(nonblank, i);
    let extra = extra_flag_list(c.extra_flags);
    let head = kept_default_flags(c.disabled_default_flags) + angle_flags(c.rendering_api)
        + fps_unlock_flags(c.fps_unlock) + gpu_flags(c.gpu_acceleration);
    assert(browser_flags(c) == head + extra);
    let j = choose|j: int| 0 <= j < extra.len() && extra[j] == trim_chars(c.extra_flags[i]);
    assert(browser_flags(c)[head.len() as int + j] == trim_chars(c.extra_flags[i]));
    assert(browser_flags(c).subrange(head.len() as int, browser_flags(c).len() as int) =~= extra);
}

/// Unlocking the frame rate passes the switches that lift the frame-rate
/// cap and vsync; turning GPU acceleration off passes `--disable-gpu`.
pub proof fn lemma_toggle_flags(c: ConfigView)
    ensures
        c.fps_unlock ==> browser_flags(c).contains("--disable-frame-rate-limit"@)
            && browser_flags(c).contains("--disable-gpu-vsync"@),
        !c.gpu_acceleration ==> browser_flags(c).contains("--disable-gpu"@),
{
    let a = kept_default_flags(c.disabled_default_flags) + angle_flags(c.rendering_api);
    let b = a + fps_unlock_flags(c.fps_unlock);
    let d = b + gpu_flags(c.gpu_acceleration);
    assert(browser_flags(c) == d + extra_flag_list(c.extra_flags));
    if c.fps_unlock {
        assert(browser_flags(c)[a.len() as int] == "--disable-frame-rate-limit"@);
        assert(browser_flags(c)[a.len() as int + 1] == "--disable-gpu-vsync"@);
    }
    if !c.gpu_acceleration {
        assert(browser_flags(c)[b.len() as int] == "--disable-gpu"@);
    }
}

/// A known rendering API selects its ANGLE backend with
/// `--use-angle=<api>`; "auto" passes no backend switch.
pub proof fn lemma_rendering_api_select(c: ConfigView)
    ensures
        (c.rendering_api == "d3d11"@ || c.rendering_api == "d3d9"@ || c.rendering_api == "gl"@
            || c.rendering_api == "vulkan"@ || c.rendering_api == "swiftshader"@)
            ==> browser_flags(c).contains("--use-angle="@ + c.rendering_api),
        angle_flags("auto"@).len() == 0,
{
    broadcast use vstd::string::group_string_axioms;

    reveal_strlit("--use-angle=");
    reveal_strlit("--use-angle=d3d11");
    reveal_strlit("--use-angle=d3d9");
    reveal_strlit("--use-angle=gl");
    reveal_strlit("--use-angle=vulkan");
    reveal_strlit("--use-angle=swiftshader");
    reveal_strlit("d3d11");
    reveal_strlit("d3d9");
    reveal_strlit("gl");
    reveal_strlit("vulkan");
    reveal_strlit("swiftshader");
    reveal_strlit("auto");
    assert("--use-angle=d3d11"@ =~= "--use-angle="@ + "d3d11"@);
    assert("--use-angle=d3d9"@ =~= "--use-angle="@ + "d3d9"@);
    assert("--use-angle=gl"@ =~= "--use-angle="@ + "gl"@);
    assert("--use-angle=vulkan"@ =~= "--use-angle="@ + "vulkan"@);
    assert("--use-angle=swiftshader"@ =~= "--use-angle="@ + "swiftshader"@);
    let k = kept_default_flags(c.disabled_default_flags);
    assert(browser_flags(c) == k + angle_flags(c.rendering_api) + fps_unlock_flags(c.fps_unlock)
        + gpu_flags(c.gpu_acceleration) + extra_flag_list(c.extra_flags));
    if angle_flags(c.rendering_api).len() == 1 {
        assert(browser_flags(c)[k.len() as int] == angle_flags(c.rendering_api)[0]);
    }
    assert("auto"@.len() == 4 && "d3d11"@.len() == 5 && "gl"@.len() == 2);
    assert("vulkan"@.len() == 6 && "swiftshader"@.len() == 11);
    assert("auto"@[0] != "d3d9"@[0]);
}


proof fn lemma_filter_and(s: Seq<Seq<char>>, p: spec_fn(Seq<char>) -> bool, q: spec_fn(Seq<char>) -> bool)
    ensures
        s.filter(|x: Seq<char>| p(x) && q(x)) == s.filter(p).filter(q),
    decreases s.len(),
{
    let pq = |x: Seq<char>| p(x) && q(x);
    if s.len() > 0 {
        let init = s.drop_last();
        let x = s.last();
        lemma_filter_and(init, p, q);
        assert(init.push(x) =~= s);
        init.lemma_filter_push(x, pq);
        init.lemma_filter_push(x, p);
        if p(x) {
            init.filter(p).lemma_filter_push(x, q);
        }
    } else {
        reveal(Seq::filter);
    }
}

proof fn lemma_filter_all_kept(s: Seq<Seq<char>>, q: spec_fn(Seq<char>) -> bool)
    requires
        forall|i: int| 0 <= i < s.len() ==> q(#[trigger] s[i]),
    ensures
        s.filter(q) == s,
    decreases s.len(),
{
    reveal(Seq::filter);
    if s.len() > 0 {
        lemma_filter_all_kept(s.drop_last(), q);
        assert(s.drop_last().push(s.last()) =~= s);
    }
}

proof fn lemma_filter_drops_one(s: Seq<Seq<char>>, d: Seq<char>)
    requires
        s.contains(d),
    ensures
        s.filter(|x: Seq<char>| x != d).len() < s.len(),
    decreases s.len(),
{
    reveal(Seq::filter);
    let q = |x: Seq<char>| x != d;
    s.drop_last().lemma_filter_len(q);
    if s.last() != d {
        let i = choose|i: int| 0 <= i < s.len() && s[i] == d;
        assert(s.drop_last()[i] == d);
        lemma_filter_drops_one(s.drop_last(), d);
    }
}

/// Adding a string to the opt-out list drops that default flag and nothing
/// else: the new flag list is the old one with the first part filtered, and
/// it is unchanged exactly when the string is no default flag or was already
/// opted out.
pub proof fn lemma_opt_out_one_more(c: ConfigView, d: Seq<char>)
    ensures
        ({
            let c2 = ConfigView { disabled_default_flags: c.disabled_default_flags.push(d), ..c };
            &&& kept_default_flags(c2.disabled_default_flags)
                == kept_default_flags(c.disabled_default_flags).filter(|f: Seq<char>| f != d)
            &&& browser_flags(c2) == kept_default_flags(c.disabled_default_flags).filter(
                |f: Seq<char>| f != d,
            ) + angle_flags(c.rendering_api) + fps_unlock_flags(c.fps_unlock) + gpu_flags(
                c.gpu_acceleration,
            ) + extra_flag_list(c.extra_flags)
            &&& (browser_flags(c2) == browser_flags(c) <==> (!default_flags().contains(d)
                || c.disabled_default_flags.contains(d)))
        }),
{
    let disabled = c.disabled_default_flags;
    let disabled2 = disabled.push(d);
    let c2 = ConfigView { disabled_default_flags: disabled2, ..c };
    let p = |f: Seq<char>| !disabled.contains(f);
    let q = |f: Seq<char>| f != d;
    let p2 = |f: Seq<char>| !disabled2.contains(f);
    assert forall|f: Seq<char>| #[trigger] p2(f) == (p(f) && q(f)) by {
        if disabled2.contains(f) && !disabled.contains(f) {
            let i = choose|i: int| 0 <= i < disabled2.len() && disabled2[i] == f;
            assert(i == disabled.len());
        }
        if disabled.contains(f) {
            let i = choose|i: int| 0 <= i < disabled.len() && disabled[i] == f;
            assert(disabled2[i] == f);
        }
        if f == d {
            assert(disabled2[disabled.len() as int] == d);
        }
    }
    assert(p2 =~= (|f: Seq<char>| p(f) && q(f)));
    lemma_filter_and(default_flags(), p, q);
    let kept = kept_default_flags(disabled);
    let kept2 = kept_default_flags(disabled2);
    assert(kept2 == kept.filter(q));
    let rest = angle_flags(c.rendering_api) + fps_unlock_flags(c.fps_unlock) + gpu_flags(
        c.gpu_acceleration,
    ) + extra_flag_list(c.extra_flags);
    assert(browser_flags(c2) =~= kept2 + rest);
    assert(browser_flags(c) =~= kept + rest);
    if !default_flags().contains(d) || disabled.contains(d) {
        assert forall|i: int| 0 <= i < kept.len() implies q(#[trigger] kept[i]) by {
            default_flags().lemma_filter_pred(p, i);
            if kept[i] == d {
                // every kept flag is a default flag
                assert(default_flags().filter(p).contains(kept[i]));
                default_flags().lemma_filter_contains_rev(p, kept[i]);
            }
        }
        lemma_filter_all_kept(kept, q);
    } else {
        lemma_default_opt_out(disabled, d);
        lemma_filter_drops_one(kept, d);
        assert(browser_flags(c2).len() < browser_flags(c).len());
    }
}


/// The curated default switches, one by one and in order.
pub proof fn lemma_curated_default_flags()
    ensures
        default_flags().len() == 18,
        default_flags()[0] == "--enable-features=BlinkCompositorUseDisplayThreadPriority,GpuUseDisplayThreadPriority,BrowserUseDisplayThreadPriority,JavaScriptExperimentalSharedMemory,WebAssemblyBaseline,WebAssemblyTiering,WebAssemblyLazyCompilation,V8VmFuture"@,
        default_flags()[1] == "--disable-features=msSmartScreenProtection,CalculateNativeWinOcclusion,HappinessTrackingSurveysForDesktopDemo,site-isolation-trial-opt-out,MediaRouter,PerformanceInterventionUI,IPH_DemoMode"@,
        default_flags()[2] == "--ignore-gpu-blocklist"@,
        default_flags()[3] == "--enable-gpu-rasterization"@,
        default_flags()[4] == "--enable-zero-copy"@,
        default_flags()[5] == "--enable-native-gpu-memory-buffers"@,
        default_flags()[6] == "--enable-threaded-compositing"@,
        default_flags()[7] == "--disable-gpu-driver-bug-workarounds"@,
        default_flags()[8] == "--disable-gpu-watchdog"@,
        default_flags()[9] == "--disable-background-timer-throttling"@,
        default_flags()[10] == "--disable-renderer-backgrounding"@,
        default_flags()[11] == "--disable-backgrounding-occluded-windows"@,
        default_flags()[12] == "--disable-low-end-device-mode"@,
        default_flags()[13] == "--disable-hang-monitor"@,
        default_flags()[14] == "--disable-component-update"@,
        default_flags()[15] == "--enable-quic"@,
        default_flags()[16] == "--no-pings"@,
        default_flags()[17] == "--autoplay-policy=no-user-gesture-required"@,
{
}

/// With nothing opted out, every curated switch is passed, in order, at the
/// start of the argument list.
pub proof fn lemma_defaults_lead_when_none_disabled(c: ConfigView)
    requires
        c.disabled_default_flags.len() == 0,
    ensures
        browser_flags(c).subrange(0, 18) == default_flags(),
{
    let keep = |f: Seq<char>| !c.disabled_default_flags.contains(f);
    assert forall|i: int| 0 <= i < default_flags().len() implies keep(#[trigger] default_flags()[i]) by {}
    lemma_filter_all_kept(default_flags(), keep);
    assert(browser_flags(c).subrange(0, 18) =~= default_flags());
}


/// The argument string puts exactly one space between neighbouring flags:
/// adding a non-blank extra flag to settings that already pass some flag
/// appends a space and the trimmed flag, and changes nothing before it.
pub proof fn lemma_extra_flag_appends_with_space(c: ConfigView, f: Seq<char>)
    requires
        browser_flags(c).len() > 0,
        trim_chars(f).len() > 0,
    ensures
        browser_args(ConfigView { extra_flags: c.extra_flags.push(f), ..c }) == browser_args(c)
            + " "@ + trim_chars(f),
{
    let c2 = ConfigView { extra_flags: c.extra_flags.push(f), ..c };
    lemma_extra_push(c.extra_flags, f);
    assert(browser_flags(c2) =~= browser_flags(c).push(trim_chars(f)));
    assert(browser_flags(c2).drop_last() =~= browser_flags(c));
}

} // verus!
