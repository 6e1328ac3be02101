//! Keyboard layout, of the system to be installed and of the running one.

use vstd::prelude::*;
use vstd::string::*;

use crate::locale::NIX_LOCALE;
use crate::plan::{
    append_step, create_step, exec_step, sed_step, Action, ActionView, ExecMode, ExecModeView,
    OnFail, Outcome, OutcomeView, Plan, Step, StepView,
};
use crate::text::{optional, strings};

verus! {

pub const TARGET_VCONSOLE: &'static str = "/mnt/etc/vconsole.conf";

pub const TARGET_XORG_DIR: &'static str = "/mnt/etc/X11/xorg.conf.d";

pub const TARGET_XORG_CONF: &'static str = "/mnt/etc/X11/xorg.conf.d/00-keyboard.conf";

pub const LIVE_VCONSOLE: &'static str = "/etc/vconsole.conf";

/// What an X.org keyboard section begins with.
pub const XORG_HEAD: &'static str =
    "\nSection \"InputClass\"\n    Identifier \"system-keyboard\"\n    MatchIsKeyboard \"on\"\n";

/// What an X.org keyboard section ends with.
pub const XORG_TAIL: &'static str =
    "    Option \"XkbModel\" \"pc105+inet\"\n    Option \"XkbOptions\" \"terminate:ctrl_alt_bksp\"\nEndSection\n";

/// A keyboard layout, under the names that the console and X.org have for it.
#[derive(Debug)]
pub struct Keymap {
    pub console: String,
    pub xkb_layout: String,
    pub xkb_variant: Option<String>,
}

/// What a `Keymap` says.
pub struct KeymapView {
    pub console: Seq<char>,
    pub xkb_layout: Seq<char>,
    pub xkb_variant: Option<Seq<char>>,
}

impl View for Keymap {
    type V = KeymapView;

    open spec fn view(&self) -> KeymapView {
        KeymapView {
            console: self.console@,
            xkb_layout: self.xkb_layout@,
            xkb_variant: optional(self.xkb_variant),
        }
    }
}

/// The layout that was found for what the user chose, or else the fallback.
pub open spec fn chosen(resolved: Option<Keymap>, fallback: Keymap) -> KeymapView {
    match resolved {
        Some(found) => found@,
        None => fallback@,
    }
}

/// The X.org keyboard section for a layout.
pub open spec fn xorg_conf(keymap: KeymapView) -> Seq<char> {
    XORG_HEAD@ + "    Option \"XkbLayout\" \""@ + keymap.xkb_layout + "\"\n"@ + (
    match keymap.xkb_variant {
        Some(variant) => "    Option \"XkbVariant\" \""@ + variant + "\"\n"@,
        None => seq![],
    }) + XORG_TAIL@
}

/// What giving the system to be installed a layout comes to.
pub open spec fn keyboard_steps(keymap: KeymapView, nix: bool) -> Seq<StepView> {
    if nix {
        seq![
            sed_step(
                NIX_LOCALE@,
                "keyMap = \"us\";"@,
                "keyMap = \""@ + keymap.console + "\";"@,
                "Set Console Keyboard Layout (NixOS)"@,
            ),
            sed_step(
                NIX_LOCALE@,
                "layout = \"us\";"@,
                "layout = \""@ + keymap.xkb_layout + "\";"@,
                "Set X11 Keyboard Layout (NixOS)"@,
            ),
        ] + (match keymap.xkb_variant {
            Some(variant) => seq![
                sed_step(
                    NIX_LOCALE@,
                    "variant = \"\";"@,
                    "variant = \""@ + variant + "\";"@,
                    "Set X11 Keyboard Variant (NixOS)"@,
                ),
            ],
            None => seq![],
        })
    } else {
        seq![
            create_step(TARGET_VCONSOLE@),
            append_step(
                TARGET_VCONSOLE@,
                "KEYMAP="@ + keymap.console + "\n"@,
                "Set keyboard layout for virtual console"@,
            ),
            append_step(TARGET_VCONSOLE@, "FONT=ter-u24n\n"@, "Set console font"@),
            StepView {
                action: ActionView::CreateDirectory { path: TARGET_XORG_DIR@ },
                outcome: OutcomeView::Report {
                    label: "Create /mnt/etc/X11/xorg.conf.d directory"@,
                },
            },
            StepView {
                action: ActionView::WriteFile {
                    path: TARGET_XORG_CONF@,
                    contents: xorg_conf(keymap),
                },
                outcome: OutcomeView::Return,
            },
        ]
    }
}

/// What `vconsole.conf` of the running system holds for a layout.
pub open spec fn live_vconsole(keymap: KeymapView) -> Seq<char> {
    "KEYMAP="@ + keymap.console + "\nFONT=ter-u24n\n"@
}

/// What `setxkbmap` is told for a layout.
pub open spec fn xkb_args(keymap: KeymapView) -> Seq<Seq<char>> {
    match keymap.xkb_variant {
        Some(variant) => seq![keymap.xkb_layout, "-variant"@, variant],
        None => seq![keymap.xkb_layout],
    }
}

/// What giving the running system a layout comes to.
pub open spec fn live_keyboard_steps(keymap: KeymapView) -> Seq<StepView> {
    seq![
        exec_step(
            ExecModeView::Direct,
            "loadkeys"@,
            seq![keymap.console],
            OnFail::Continue,
            "Apply keymap "@ + keymap.console + " to current TTY"@,
        ),
        StepView {
            action: ActionView::WriteFile {
                path: LIVE_VCONSOLE@,
                contents: live_vconsole(keymap),
            },
            outcome: OutcomeView::Return,
        },
        StepView {
            action: ActionView::Capture { program: "setxkbmap"@, args: xkb_args(keymap) },
            outcome: OutcomeView::Ignore,
        },
    ]
}

/// The layout that was found for what the user chose, or else the fallback.
fn choose_keymap(resolved: Option<Keymap>, fallback: Keymap) -> (keymap: Keymap)
    ensures
        keymap@ == chosen(resolved, fallback),
{
    match resolved {
        Some(found) => found,
        None => fallback,
    }
}

/// `text` between `before` and `after`.
fn wrapped(before: &str, text: &str, after: &str) -> (whole: String)
    ensures
        whole@ == before@ + text@ + after@,
{
    before.to_string().concat(text).concat(after)
}

/// The X.org keyboard section for a layout.
fn write_xorg_conf(keymap: &Keymap) -> (conf: String)
    ensures
        conf@ == xorg_conf(keymap@),
{
    let mut conf = XORG_HEAD.to_string();
    conf.append(wrapped("    Option \"XkbLayout\" \"", keymap.xkb_layout.as_str(), "\"\n").as_str());
    match &keymap.xkb_variant {
        Some(variant) => {
            conf.append(wrapped("    Option \"XkbVariant\" \"", variant.as_str(), "\"\n").as_str());
        },
        None => {},
    }
    conf.append(XORG_TAIL);
    assert(conf@ =~= xorg_conf(keymap@));
    conf
}

/// Sets the keyboard layout of the system to be installed: `resolved`, found for
/// what the user chose, or else `fallback`.
pub fn set_keyboard(resolved: Option<Keymap>, fallback: Keymap, nix: bool) -> (plan: Plan)
    ensures
        plan@ == keyboard_steps(chosen(resolved, fallback), nix),
{
    let keymap = choose_keymap(resolved, fallback);
    let mut plan = Plan::new();
    if !nix {
        plan.create(TARGET_VCONSOLE);
        let line = wrapped("KEYMAP=", keymap.console.as_str(), "\n");
        plan.append(TARGET_VCONSOLE, line.as_str(), "Set keyboard layout for virtual console");
        plan.append(TARGET_VCONSOLE, "FONT=ter-u24n\n", "Set console font");
        plan.push(
            Step {
                action: Action::CreateDirectory { path: TARGET_XORG_DIR.to_string() },
                outcome: Outcome::Report {
                    label: "Create /mnt/etc/X11/xorg.conf.d directory".to_string(),
                },
            },
        );
        plan.push(
            Step {
                action: Action::WriteFile {
                    path: TARGET_XORG_CONF.to_string(),
                    contents: write_xorg_conf(&keymap),
                },
                outcome: Outcome::Return,
            },
        );
    } else {
        let console = wrapped("keyMap = \"", keymap.console.as_str(), "\";");
        plan.sed(
            NIX_LOCALE,
            "keyMap = \"us\";",
            console.as_str(),
            "Set Console Keyboard Layout (NixOS)",
        );
        let layout = wrapped("layout = \"", keymap.xkb_layout.as_str(), "\";");
        plan.sed(
            NIX_LOCALE,
            "layout = \"us\";",
            layout.as_str(),
            "Set X11 Keyboard Layout (NixOS)",
        );
        match &keymap.xkb_variant {
            Some(name) => {
                let variant = wrapped("variant = \"", name.as_str(), "\";");
                plan.sed(
                    NIX_LOCALE,
                    "variant = \"\";",
                    variant.as_str(),
                    "Set X11 Keyboard Variant (NixOS)",
                );
            },
            None => {},
        }
    }
    assert(plan@ =~= keyboard_steps(keymap@, nix));
    plan
}

/// Sets the keyboard layout of the running system: `resolved`, found for what the
/// user chose, or else `fallback`. Three things are done:
///   1. `loadkeys` changes the current console at once.
///   2. `/etc/vconsole.conf` is written, so that new consoles follow; it is
///      overwritten, so that nothing piles up when it is done again.
///   3. `setxkbmap` changes an X11 session, if there happens to be one.
/// The layout that was applied is handed back.
pub fn set_keyboard_live(resolved: Option<Keymap>, fallback: Keymap) -> (done: (Plan, Keymap))
    ensures
        done.0@ == live_keyboard_steps(chosen(resolved, fallback)),
        done.1@ == chosen(resolved, fallback),
{
    let keymap = choose_keymap(resolved, fallback);
    let mut plan = Plan::new();
    let keys: Vec<String> = vec![keymap.console.clone()];
    assert(strings(keys@) =~= seq![keymap@.console]);
    let label = wrapped("Apply keymap ", keymap.console.as_str(), " to current TTY");
    plan.exec(ExecMode::Direct, "loadkeys", keys, OnFail::Continue, label.as_str());
    plan.push(
        Step {
            action: Action::WriteFile {
                path: LIVE_VCONSOLE.to_string(),
                contents: wrapped("KEYMAP=", keymap.console.as_str(), "\nFONT=ter-u24n\n"),
            },
            outcome: Outcome::Return,
        },
    );
    let mut args: Vec<String> = vec![keymap.xkb_layout.clone()];
    match &keymap.xkb_variant {
        Some(variant) => {
            args.push("-variant".to_string());
            args.push(variant.clone());
        },
        None => {},
    }
    assert(strings(args@) =~= xkb_args(keymap@));
    plan.push(
        Step {
            action: Action::Capture { program: "setxkbmap".to_string(), args },
            outcome: Outcome::Ignore,
        },
    );
    assert(plan@ =~= live_keyboard_steps(keymap@));
    (plan, keymap)
}

} // verus!
