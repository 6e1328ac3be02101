//! What a keyboard layout comes to, on the console and under X11.

use vstd::prelude::*;

use crate::keyboard::{
    chosen, keyboard_steps, live_keyboard_steps, Keymap, KeymapView, XORG_HEAD, XORG_TAIL,
};
use crate::laws::nixos::{law_nix_keyboard_is_the_one_chosen, lemma_between};
use crate::laws::words::lemma_mentioned;
use crate::plan::{ActionView, ExecModeView, OnFail, OutcomeView, StepView};
use crate::text::mentions;

verus! {

/// What the user chose is what is applied, and the fallback only where nothing was
/// found for it.
pub proof fn law_choice_goes_before_fallback(found: Keymap, fallback: Keymap)
    ensures
        chosen(Some(found), fallback).console == found.console@,
        chosen(Some(found), fallback).xkb_layout == found.xkb_layout@,
        chosen(Some(found), fallback).xkb_variant is Some <==> found.xkb_variant is Some,
        found.xkb_variant matches Some(variant) ==> chosen(Some(found), fallback).xkb_variant
            == Some(variant@),
        chosen(None, fallback) == chosen(Some(fallback), found),
{
}

/// A line of an X.org section that gives an option a value.
pub open spec fn option_line(name: Seq<char>, value: Seq<char>) -> Seq<char> {
    "    Option \""@ + name + "\" \""@ + value + "\"\n"@
}

/// The X.org section of the system to be installed holds, in this order, what makes
/// it one for every keyboard, the layout of the keymap, its variant where it has
/// one, the model and the key that ends the server.
pub proof fn law_xorg_section_holds_the_layout(keymap: KeymapView)
    ensures
        ({
            let steps = keyboard_steps(keymap, false);
            let contents = "\nSection \"InputClass\"\n"@ + "    Identifier \"system-keyboard\"\n"@
                + "    MatchIsKeyboard \"on\"\n"@ + option_line(
                "XkbLayout"@,
                keymap.xkb_layout,
            ) + (match keymap.xkb_variant {
                Some(variant) => option_line("XkbVariant"@, variant),
                None => seq![],
            }) + option_line("XkbModel"@, "pc105+inet"@) + option_line(
                "XkbOptions"@,
                "terminate:ctrl_alt_bksp"@,
            ) + "EndSection\n"@;
            &&& steps.len() == 5
            &&& steps[3] == StepView {
                action: ActionView::CreateDirectory { path: "/mnt/etc/X11/xorg.conf.d"@ },
                outcome: OutcomeView::Report {
                    label: "Create /mnt/etc/X11/xorg.conf.d directory"@,
                },
            }
            &&& steps[4] == StepView {
                action: ActionView::WriteFile {
                    path: "/mnt/etc/X11/xorg.conf.d"@ + "/00-keyboard.conf"@,
                    contents,
                },
                outcome: OutcomeView::Return,
            }
            &&& mentions(contents, option_line("XkbLayout"@, keymap.xkb_layout))
            &&& keymap.xkb_variant matches Some(variant) ==> mentions(
                contents,
                option_line("XkbVariant"@, variant),
            )
        }),
{
    reveal_strlit("\nSection \"InputClass\"\n");
    reveal_strlit("    Identifier \"system-keyboard\"\n");
    reveal_strlit("    MatchIsKeyboard \"on\"\n");
    reveal_strlit("    Option \"");
    reveal_strlit("\" \"");
    reveal_strlit("\"\n");
    reveal_strlit("XkbLayout");
    reveal_strlit("XkbVariant");
    reveal_strlit("XkbModel");
    reveal_strlit("XkbOptions");
    reveal_strlit("pc105+inet");
    reveal_strlit("terminate:ctrl_alt_bksp");
    reveal_strlit("EndSection\n");
    reveal_strlit("    Option \"XkbLayout\" \"");
    reveal_strlit("    Option \"XkbVariant\" \"");
    reveal_strlit(
        "\nSection \"InputClass\"\n    Identifier \"system-keyboard\"\n    MatchIsKeyboard \"on\"\n",
    );
    reveal_strlit(
        "    Option \"XkbModel\" \"pc105+inet\"\n    Option \"XkbOptions\" \"terminate:ctrl_alt_bksp\"\nEndSection\n",
    );
    reveal_strlit("/mnt/etc/X11/xorg.conf.d");
    reveal_strlit("/00-keyboard.conf");
    reveal_strlit("/mnt/etc/X11/xorg.conf.d/00-keyboard.conf");
    assert("/mnt/etc/X11/xorg.conf.d"@ + "/00-keyboard.conf"@
        =~= "/mnt/etc/X11/xorg.conf.d/00-keyboard.conf"@);
    let head = "\nSection \"InputClass\"\n"@ + "    Identifier \"system-keyboard\"\n"@
        + "    MatchIsKeyboard \"on\"\n"@;
    assert(head =~= XORG_HEAD@);
    let model = option_line("XkbModel"@, "pc105+inet"@);
    let options = option_line("XkbOptions"@, "terminate:ctrl_alt_bksp"@);
    let end = "EndSection\n"@;
    assert(model + options + end =~= XORG_TAIL@);
    let layout = option_line("XkbLayout"@, keymap.xkb_layout);
    assert("    Option \""@ + "XkbLayout"@ + "\" \""@ =~= "    Option \"XkbLayout\" \""@);
    assert("    Option \""@ + "XkbVariant"@ + "\" \""@ =~= "    Option \"XkbVariant\" \""@);
    let variant = match keymap.xkb_variant {
        Some(variant) => option_line("XkbVariant"@, variant),
        None => seq![],
    };
    let contents = head + layout + variant + model + options + end;
    let held = keyboard_steps(keymap, false)[4].action->contents;
    assert(held == XORG_HEAD@ + "    Option \"XkbLayout\" \""@ + keymap.xkb_layout + "\"\n"@
        + variant + XORG_TAIL@);
    assert(layout == "    Option \"XkbLayout\" \""@ + keymap.xkb_layout + "\"\n"@);
    assert(head + layout =~= XORG_HEAD@ + "    Option \"XkbLayout\" \""@ + keymap.xkb_layout
        + "\"\n"@);
    assert(contents =~= head + layout + variant + (model + options + end));
    assert(contents == held);
    lemma_mentioned(head, layout, variant + model + options + end);
    assert(contents =~= head + layout + (variant + model + options + end));
    lemma_mentioned(head + layout, variant, model + options + end);
    assert(contents =~= head + layout + variant + (model + options + end));
}

/// What a step writes into a file.
spec fn written(step: StepView) -> Seq<char> {
    step.action->contents
}

/// Layouts with different names, on the console or under X11, are told apart: they
/// give different plans.
pub proof fn law_layouts_are_told_apart(keymap: KeymapView, other: KeymapView, nix: bool)
    requires
        keymap.xkb_variant == other.xkb_variant,
        keymap.console != other.console || keymap.xkb_layout != other.xkb_layout,
    ensures
        keyboard_steps(keymap, nix) != keyboard_steps(other, nix),
        live_keyboard_steps(keymap) != live_keyboard_steps(other),
{
    if live_keyboard_steps(keymap) == live_keyboard_steps(other) {
        law_running_system_gets_the_layout(keymap);
        law_running_system_gets_the_layout(other);
        let a = live_keyboard_steps(keymap);
        assert(a[0].action->Exec_args[0] == keymap.console);
        assert(a[0].action->Exec_args[0] == other.console);
        assert(a[2].action->Capture_args[0] == keymap.xkb_layout);
        assert(a[2].action->Capture_args[0] == other.xkb_layout);
    }
    if keyboard_steps(keymap, nix) == keyboard_steps(other, nix) {
        let steps = keyboard_steps(keymap, nix);
        let others = keyboard_steps(other, nix);
        if nix {
            law_nix_keyboard_is_the_one_chosen(keymap);
            law_nix_keyboard_is_the_one_chosen(other);
            lemma_between("keyMap = \""@, keymap.console, other.console, "\";"@);
            lemma_between("layout = \""@, keymap.xkb_layout, other.xkb_layout, "\";"@);
        } else {
            law_target_console_gets_the_layout(keymap);
            law_target_console_gets_the_layout(other);
            lemma_between("KEYMAP="@, keymap.console, other.console, "\n"@);
            let variant = match keymap.xkb_variant {
                Some(variant) => "    Option \"XkbVariant\" \""@ + variant + "\"\n"@,
                None => seq![],
            };
            let lead = XORG_HEAD@ + "    Option \"XkbLayout\" \""@;
            let trail = "\"\n"@ + variant + XORG_TAIL@;
            assert(written(steps[4]) =~= lead + keymap.xkb_layout + trail);
            assert(written(others[4]) =~= lead + other.xkb_layout + trail);
            lemma_between(lead, keymap.xkb_layout, other.xkb_layout, trail);
        }
    }
}

/// Variants of a layout are told apart, from each other and from the layout without
/// a variant.
pub proof fn law_variants_are_told_apart(keymap: KeymapView, other: KeymapView, nix: bool)
    requires
        keymap.console == other.console,
        keymap.xkb_layout == other.xkb_layout,
        keymap.xkb_variant is Some,
        keymap.xkb_variant != other.xkb_variant,
    ensures
        keyboard_steps(keymap, nix) != keyboard_steps(other, nix),
        live_keyboard_steps(keymap) != live_keyboard_steps(other),
{
    let variant = keymap.xkb_variant->0;
    if live_keyboard_steps(keymap) == live_keyboard_steps(other) {
        law_running_system_gets_the_layout(keymap);
        law_running_system_gets_the_layout(other);
        let args = live_keyboard_steps(keymap)[2].action->Capture_args;
        assert(args.len() == 3);
        assert(args[2] == variant);
        assert(args[2] == other.xkb_variant->0);
    }
    if keyboard_steps(keymap, nix) == keyboard_steps(other, nix) {
        let steps = keyboard_steps(keymap, nix);
        let others = keyboard_steps(other, nix);
        if nix {
            law_nix_keyboard_is_the_one_chosen(keymap);
            law_nix_keyboard_is_the_one_chosen(other);
            lemma_between("variant = \""@, variant, other.xkb_variant->0, "\";"@);
        } else {
            let front = XORG_HEAD@ + "    Option \"XkbLayout\" \""@ + keymap.xkb_layout + "\"\n"@;
            let lead = front + "    Option \"XkbVariant\" \""@;
            let trail = "\"\n"@ + XORG_TAIL@;
            assert(written(steps[4]) =~= lead + variant + trail);
            match other.xkb_variant {
                Some(different) => {
                    assert(written(others[4]) =~= lead + different + trail);
                    lemma_between(lead, variant, different, trail);
                },
                None => {
                    assert(written(others[4]) =~= front + XORG_TAIL@);
                    reveal_strlit("\"\n");
                    assert(written(steps[4]).len() > written(others[4]).len());
                },
            }
        }
    }
}

/// The console of the system to be installed gets the layout and the font, in a file
/// that has been created before.
pub proof fn law_target_console_gets_the_layout(keymap: KeymapView)
    ensures
        ({
            let steps = keyboard_steps(keymap, false);
            let path = "/mnt/etc/vconsole.conf"@;
            &&& steps.len() == 5
            &&& steps[0] == StepView {
                action: ActionView::CreateFile { path },
                outcome: OutcomeView::Ignore,
            }
            &&& steps[1] == StepView {
                action: ActionView::AppendFile {
                    path,
                    text: "KEYMAP="@ + keymap.console + "\n"@,
                },
                outcome: OutcomeView::Report {
                    label: "Set keyboard layout for virtual console"@,
                },
            }
            &&& steps[2] == StepView {
                action: ActionView::AppendFile { path, text: "FONT="@ + "ter-u24n"@ + "\n"@ },
                outcome: OutcomeView::Report { label: "Set console font"@ },
            }
        }),
{
    reveal_strlit("FONT=");
    reveal_strlit("ter-u24n");
    reveal_strlit("\n");
    reveal_strlit("FONT=ter-u24n\n");
    assert("FONT="@ + "ter-u24n"@ + "\n"@ =~= "FONT=ter-u24n\n"@);
}

/// The running system gets the layout in three ways: `loadkeys` is told its name on
/// the console, and may fail; `vconsole.conf` is overwritten with that name and the
/// font; and `setxkbmap` is told its name under X11 and its variant, whatever comes
/// of that.
pub proof fn law_running_system_gets_the_layout(keymap: KeymapView)
    ensures
        ({
            let steps = live_keyboard_steps(keymap);
            &&& steps.len() == 3
            &&& steps[0] == StepView {
                action: ActionView::Exec {
                    mode: ExecModeView::Direct,
                    program: "loadkeys"@,
                    args: seq![keymap.console],
                    on_fail: OnFail::Continue,
                },
                outcome: OutcomeView::Report {
                    label: "Apply keymap "@ + keymap.console + " to current TTY"@,
                },
            }
            &&& steps[1] == StepView {
                action: ActionView::WriteFile {
                    path: "/etc/vconsole.conf"@,
                    contents: ("KEYMAP="@ + keymap.console + "\n"@) + ("FONT="@ + "ter-u24n"@
                        + "\n"@),
                },
                outcome: OutcomeView::Return,
            }
            &&& steps[2].outcome == OutcomeView::Ignore
            &&& steps[2].action == (ActionView::Capture {
                program: "setxkbmap"@,
                args: seq![keymap.xkb_layout] + (match keymap.xkb_variant {
                    Some(variant) => seq!["-variant"@, variant],
                    None => seq![],
                }),
            })
        }),
{
    reveal_strlit("FONT=");
    reveal_strlit("ter-u24n");
    reveal_strlit("\n");
    reveal_strlit("\nFONT=ter-u24n\n");
    assert("\n"@ + ("FONT="@ + "ter-u24n"@ + "\n"@) =~= "\nFONT=ter-u24n\n"@);
    assert(("KEYMAP="@ + keymap.console + "\n"@) + ("FONT="@ + "ter-u24n"@ + "\n"@) =~= "KEYMAP="@
        + keymap.console + ("\n"@ + ("FONT="@ + "ter-u24n"@ + "\n"@)));
    let args = live_keyboard_steps(keymap)[2].action->Capture_args;
    assert(args =~= seq![keymap.xkb_layout] + (match keymap.xkb_variant {
        Some(variant) => seq!["-variant"@, variant],
        None => seq![],
    }));
}

} // verus!
