//! What holds of the plans.

use vstd::prelude::*;

use crate::cpu::{cores_steps, cpu_packages, cpu_steps, MAKEPKG_CONF, NIX_HARDWARE};
use crate::gpu::{gpu_nix_steps, NIX_GRAPHICS};
use crate::keyboard::{
    keyboard_steps, live_keyboard_steps, live_vconsole, KeymapView, LIVE_VCONSOLE,
    TARGET_VCONSOLE, TARGET_XORG_CONF, TARGET_XORG_DIR,
};
use crate::locale::{
    append_line, entries_steps, entry_steps, in_target, locale_steps, nix_locale, timezone_steps,
    DEFAULT_LOCALE, LOCALE_CONF, LOCALE_GEN, NIX_LOCALE,
};
use crate::pci::GpuDeviceView;
use crate::plan::{
    Action, ActionView, ExecMode, ExecModeView, OnFail, Outcome, OutcomeView, Plan, StepView,
};
use crate::text::{
    begins_with, ink, is_blank, is_solid, is_space, lemma_first, space, splits, strings,
};
use crate::virt::{virt_setup, NIX_GUEST, UNIT_DIR, UNIT_PATH};

verus! {

/// The file or directory that an action changes; none for a program that is run.
pub open spec fn changed_path(action: ActionView) -> Option<Seq<char>> {
    match action {
        ActionView::Exec { .. } => None,
        ActionView::Capture { .. } => None,
        ActionView::CreateFile { path } => Some(path),
        ActionView::AppendFile { path, .. } => Some(path),
        ActionView::SedFile { path, .. } => Some(path),
        ActionView::CreateDirectory { path } => Some(path),
        ActionView::CreateDirectories { path } => Some(path),
        ActionView::WriteFile { path, .. } => Some(path),
    }
}

/// Whether a step stays in the system to be installed: it runs a program there,
/// or changes something under its root.
pub open spec fn in_install_root(step: StepView) -> bool {
    match changed_path(step.action) {
        Some(path) => begins_with(path, "/mnt/"@),
        None => step.action matches ActionView::Exec { mode, .. } && mode == in_target(),
    }
}

/// Whether a step leaves the system to be installed alone: it runs a program in
/// the running system, or changes something outside of that root.
pub open spec fn in_running_system(step: StepView) -> bool {
    match changed_path(step.action) {
        Some(path) => !begins_with(path, "/mnt/"@),
        None => match step.action {
            ActionView::Exec { mode, .. } => mode == ExecModeView::Direct,
            _ => true,
        },
    }
}

/// Whether a step changes the NixOS configuration.
pub open spec fn is_nix_change(step: StepView) -> bool {
    changed_path(step.action) matches Some(path) && begins_with(path, "/mnt/etc/nixos/"@)
}

/// Whether each of the steps stays in the system to be installed.
pub open spec fn all_in_install_root(steps: Seq<StepView>) -> bool {
    forall|i: int| 0 <= i < steps.len() ==> in_install_root(#[trigger] steps[i])
}

/// Whether each of the steps changes the NixOS configuration, or none does.
pub open spec fn all_nix_changes(steps: Seq<StepView>, nix: bool) -> bool {
    forall|i: int| 0 <= i < steps.len() ==> is_nix_change(#[trigger] steps[i]) == nix
}

/// What the file at `path`, which held `before`, holds once its contents have been
/// appended to and written as `steps` say. Replacements are not followed.
pub open spec fn file_after(steps: Seq<StepView>, path: Seq<char>, before: Seq<char>) -> Seq<char>
    decreases steps.len(),
{
    if steps.len() == 0 {
        before
    } else {
        let held = file_after(steps.drop_last(), path, before);
        match steps.last().action {
            ActionView::AppendFile { path: changed, text } if changed == path => held + text,
            ActionView::WriteFile { path: changed, contents } if changed == path => contents,
            _ => held,
        }
    }
}

proof fn lemma_nix_paths()
    ensures
        begins_with(NIX_LOCALE@, "/mnt/"@),
        begins_with(NIX_HARDWARE@, "/mnt/"@),
        begins_with(NIX_GRAPHICS@, "/mnt/"@),
        begins_with(NIX_GUEST@, "/mnt/"@),
        begins_with(NIX_LOCALE@, "/mnt/etc/nixos/"@),
        begins_with(NIX_HARDWARE@, "/mnt/etc/nixos/"@),
        begins_with(NIX_GRAPHICS@, "/mnt/etc/nixos/"@),
        begins_with(NIX_GUEST@, "/mnt/etc/nixos/"@),
{
    reveal_strlit("/mnt/");
    reveal_strlit("/mnt/etc/nixos/");
    reveal_strlit("/mnt/etc/nixos/hosts/locale/default.nix");
    reveal_strlit("/mnt/etc/nixos/modules/hardware/default.nix");
    reveal_strlit("/mnt/etc/nixos/modules/hardware/graphics/default.nix");
    reveal_strlit("/mnt/etc/nixos/modules/hardware/virtualization/guest.nix");
    assert(NIX_LOCALE@.subrange(0, 5) =~= "/mnt/"@);
    assert(NIX_HARDWARE@.subrange(0, 5) =~= "/mnt/"@);
    assert(NIX_GRAPHICS@.subrange(0, 5) =~= "/mnt/"@);
    assert(NIX_GUEST@.subrange(0, 5) =~= "/mnt/"@);
    assert(NIX_LOCALE@.subrange(0, 15) =~= "/mnt/etc/nixos/"@);
    assert(NIX_HARDWARE@.subrange(0, 15) =~= "/mnt/etc/nixos/"@);
    assert(NIX_GRAPHICS@.subrange(0, 15) =~= "/mnt/etc/nixos/"@);
    assert(NIX_GUEST@.subrange(0, 15) =~= "/mnt/etc/nixos/"@);
}

/// Whether `path` is under the root of the system to be installed, its NixOS
/// configuration aside.
spec fn plain_target_path(path: Seq<char>) -> bool {
    begins_with(path, "/mnt/"@) && !begins_with(path, "/mnt/etc/nixos/"@)
}

proof fn lemma_plain(path: Seq<char>)
    requires
        path.len() > 9,
        path.subrange(0, 5) =~= seq!['/', 'm', 'n', 't', '/'],
        path[9] != 'n',
    ensures
        plain_target_path(path),
{
    reveal_strlit("/mnt/");
    reveal_strlit("/mnt/etc/nixos/");
    assert(path.subrange(0, 5) =~= "/mnt/"@);
    if begins_with(path, "/mnt/etc/nixos/"@) {
        assert(path.subrange(0, 15)[9] == 'n');
    }
}

proof fn lemma_plain_paths()
    ensures
        plain_target_path(LOCALE_CONF@),
        plain_target_path(LOCALE_GEN@),
        plain_target_path(TARGET_VCONSOLE@),
        plain_target_path(TARGET_XORG_DIR@),
        plain_target_path(TARGET_XORG_CONF@),
        plain_target_path(MAKEPKG_CONF@),
        plain_target_path(UNIT_DIR@),
        plain_target_path(UNIT_PATH@),
{
    reveal_strlit("/mnt/etc/locale.conf");
    reveal_strlit("/mnt/etc/locale.gen");
    reveal_strlit("/mnt/etc/vconsole.conf");
    reveal_strlit("/mnt/etc/X11/xorg.conf.d");
    reveal_strlit("/mnt/etc/X11/xorg.conf.d/00-keyboard.conf");
    reveal_strlit("/mnt/etc/makepkg.conf");
    reveal_strlit("/mnt/etc/systemd/system");
    reveal_strlit("/mnt/etc/systemd/system/hv_fcopy_uio_daemon.service");
    lemma_plain(LOCALE_CONF@);
    lemma_plain(LOCALE_GEN@);
    lemma_plain(TARGET_VCONSOLE@);
    lemma_plain(TARGET_XORG_DIR@);
    lemma_plain(TARGET_XORG_CONF@);
    lemma_plain(MAKEPKG_CONF@);
    lemma_plain(UNIT_DIR@);
    lemma_plain(UNIT_PATH@);
}

proof fn lemma_entries(words: Seq<Seq<char>>, n: nat)
    ensures
        all_in_install_root(entries_steps(words, n)),
        all_nix_changes(entries_steps(words, n), false),
    decreases n,
{
    lemma_plain_paths();
    if n > 0 {
        lemma_entries(words, (n - 1) as nat);
    }
}

/// Everything but the live keyboard layout stays in the system to be installed.
pub proof fn law_installation_stays_in_its_root(
    timezone: Seq<char>,
    locale: Seq<char>,
    keymap: KeymapView,
    kind: Seq<char>,
    vendor: Seq<char>,
    cores: nat,
    gpus: Seq<GpuDeviceView>,
    arch: bool,
    nix: bool,
)
    ensures
        all_in_install_root(timezone_steps(timezone, nix)),
        all_in_install_root(locale_steps(locale, nix)),
        all_in_install_root(keyboard_steps(keymap, nix)),
        all_in_install_root(virt_setup(kind, arch, nix).plan),
        all_in_install_root(cpu_steps(vendor, arch, nix)),
        all_in_install_root(cores_steps(cores)),
        all_in_install_root(gpu_nix_steps(gpus, nix)),
{
    lemma_nix_paths();
    lemma_plain_paths();
    let words = splits(locale, ' ');
    lemma_entries(words, words.len() / 2);
}

/// Giving the running system a keyboard layout leaves the one to be installed
/// alone.
pub proof fn law_live_keyboard_leaves_the_target_alone(keymap: KeymapView)
    ensures
        forall|i: int|
            0 <= i < live_keyboard_steps(keymap).len() ==> in_running_system(
                #[trigger] live_keyboard_steps(keymap)[i],
            ),
{
    reveal_strlit("/mnt/");
    reveal_strlit("/etc/vconsole.conf");
    if begins_with(LIVE_VCONSOLE@, "/mnt/"@) {
        assert(LIVE_VCONSOLE@.subrange(0, 5)[1] == 'm');
    }
}

/// Giving the running system a keyboard layout again leaves nothing behind: what
/// `vconsole.conf` holds afterwards does not depend on what it held before, nor on
/// how often it was done.
pub proof fn law_live_keyboard_does_not_pile_up(
    keymap: KeymapView,
    earlier: KeymapView,
    before: Seq<char>,
)
    ensures
        file_after(live_keyboard_steps(keymap), LIVE_VCONSOLE@, before) == live_vconsole(keymap),
        file_after(
            live_keyboard_steps(earlier) + live_keyboard_steps(keymap),
            LIVE_VCONSOLE@,
            before,
        ) == live_vconsole(keymap),
{
    let once = live_keyboard_steps(keymap);
    let twice = live_keyboard_steps(earlier) + once;
    assert(once.drop_last().last() == once[1]);
    assert(twice.drop_last().last() == once[1]);
    assert(twice.last() == once[2]);
    reveal_with_fuel(file_after, 3);
}

/// The console of the system to be installed is set up as that of the running one:
/// the same text goes into `vconsole.conf`.
pub proof fn law_target_console_is_as_the_live_one(keymap: KeymapView)
    ensures
        file_after(keyboard_steps(keymap, false), TARGET_VCONSOLE@, seq![]) == file_after(
            live_keyboard_steps(keymap),
            LIVE_VCONSOLE@,
            seq![],
        ),
{
    let steps = keyboard_steps(keymap, false);
    law_live_keyboard_does_not_pile_up(keymap, keymap, seq![]);
    reveal_strlit("/mnt/etc/vconsole.conf");
    reveal_strlit("/mnt/etc/X11/xorg.conf.d/00-keyboard.conf");
    assert(TARGET_VCONSOLE@.len() != TARGET_XORG_CONF@.len());
    let four = steps.drop_last();
    let three = four.drop_last();
    let two = three.drop_last();
    let one = two.drop_last();
    assert(steps.last() == steps[4] && four.last() == steps[3] && three.last() == steps[2]
        && two.last() == steps[1] && one.last() == steps[0]);
    reveal_with_fuel(file_after, 6);
    reveal_strlit("\n");
    reveal_strlit("FONT=ter-u24n\n");
    reveal_strlit("\nFONT=ter-u24n\n");
    assert("\n"@ + "FONT=ter-u24n\n"@ =~= "\nFONT=ter-u24n\n"@);
    assert(file_after(steps, TARGET_VCONSOLE@, seq![]) =~= live_vconsole(keymap));
}

/// NixOS takes the first of the locales that are listed, without its character
/// set, and the default one where none is.
pub proof fn law_nix_takes_the_first_locale(lead: Seq<char>, name: Seq<char>, rest: Seq<char>)
    requires
        is_blank(lead),
        is_solid(name),
        name.len() == 0 ==> rest.len() == 0,
        rest.len() > 0 ==> is_space(rest[0]),
    ensures
        nix_locale(lead + name + rest) == if name.len() > 0 {
            name
        } else {
            DEFAULT_LOCALE@
        },
{
    let text = lead + name + rest;
    assert forall|j: int| 0 <= j < lead.len() implies !ink()(#[trigger] text[j]) by {
        assert(text[j] == lead[j]);
    }
    if name.len() > 0 {
        assert(text[lead.len() as int] == name[0]);
    }
    lemma_first(text, ink(), lead.len());
    let start = text.skip(lead.len() as int);
    assert(start =~= name + rest);
    if name.len() > 0 {
        assert forall|j: int| 0 <= j < name.len() implies !space()(#[trigger] start[j]) by {
            assert(start[j] == name[j]);
        }
        if rest.len() > 0 {
            assert(start[name.len() as int] == rest[0]);
        }
        lemma_first(start, space(), name.len());
        assert(start.take(name.len() as int) =~= name);
    }
}

/// The NixOS configuration is what changes on NixOS, and only there.
pub proof fn law_nix_changes_are_for_nix(
    timezone: Seq<char>,
    locale: Seq<char>,
    keymap: KeymapView,
    kind: Seq<char>,
    vendor: Seq<char>,
    gpus: Seq<GpuDeviceView>,
    arch: bool,
    nix: bool,
)
    ensures
        all_nix_changes(timezone_steps(timezone, nix), nix),
        all_nix_changes(locale_steps(locale, nix), nix),
        all_nix_changes(keyboard_steps(keymap, nix), nix),
        all_nix_changes(virt_setup(kind, arch, nix).plan, nix),
        all_nix_changes(cpu_steps(vendor, arch, nix), nix),
        all_nix_changes(gpu_nix_steps(gpus, nix), nix),
{
    lemma_nix_paths();
    lemma_plain_paths();
    let words = splits(locale, ' ');
    lemma_entries(words, words.len() / 2);
}

/// On NixOS nothing is installed or edited from outside: neither the processor nor
/// a virtual machine calls for packages, services or arguments of `sed`.
pub proof fn law_nix_installs_no_packages(kind: Seq<char>, vendor: Seq<char>)
    ensures
        cpu_packages(vendor, false).len() == 0,
        virt_setup(kind, false, true).packages.len() == 0,
        virt_setup(kind, false, true).services.len() == 0,
        virt_setup(kind, false, true).set_params.len() == 0,
{
}

proof fn lemma_entry_is_there(words: Seq<Seq<char>>, n: nat, k: int)
    requires
        0 <= k < n,
    ensures
        entries_steps(words, n).contains(append_line(words[2 * k], words[2 * k + 1])),
    decreases n,
{
    let all = entries_steps(words, n);
    let wanted = append_line(words[2 * k], words[2 * k + 1]);
    let before = entries_steps(words, (n - 1) as nat);
    if k == n - 1 {
        let entry = entry_steps(words[2 * n - 2], words[2 * n - 1]);
        assert(entry[0] == wanted);
        assert(all[before.len() as int] == wanted);
    } else {
        lemma_entry_is_there(words, (n - 1) as nat, k);
        let i = choose|i: int| 0 <= i < before.len() && before[i] == wanted;
        assert(all[i] == wanted);
    }
}

/// Every locale that is listed goes into `locale.gen` with its character set, and
/// the locales are generated last, when all of them are there.
pub proof fn law_listed_locales_are_generated(locale: Seq<char>, k: int)
    requires
        0 <= k,
        2 * k + 1 < splits(locale, ' ').len(),
    ensures
        ({
            let words = splits(locale, ' ');
            let steps = locale_steps(locale, false);
            &&& steps.drop_last().contains(append_line(words[2 * k], words[2 * k + 1]))
            &&& steps.last().action == (ActionView::Exec {
                mode: in_target(),
                program: "locale-gen"@,
                args: seq![],
                on_fail: OnFail::Error,
            })
        }),
{
    let words = splits(locale, ' ');
    let steps = locale_steps(locale, false);
    let entries = entries_steps(words, words.len() / 2);
    let wanted = append_line(words[2 * k], words[2 * k + 1]);
    lemma_entry_is_there(words, words.len() / 2, k);
    let i = choose|i: int| 0 <= i < entries.len() && entries[i] == wanted;
    assert(steps.drop_last()[3 + i] == wanted);
}

/// A plan holds what is said of it: as many steps in the same order, each with its
/// own path, its own text and its own outcome.
pub proof fn law_plans_hold_what_is_said(plan: Plan, i: int, args: Vec<String>, k: int)
    requires
        0 <= i < plan.steps@.len(),
        0 <= k < args@.len(),
    ensures
        plan@.len() == plan.steps@.len(),
        match plan.steps@[i].action {
            Action::Exec { mode, program, args, on_fail } => plan@[i].action == (ActionView::Exec {
                mode: match mode {
                    ExecMode::Direct => ExecModeView::Direct,
                    ExecMode::Chroot { root } => ExecModeView::Chroot { root: root@ },
                },
                program: program@,
                args: strings(args@),
                on_fail,
            }),
            Action::Capture { program, args } => plan@[i].action == (ActionView::Capture {
                program: program@,
                args: strings(args@),
            }),
            Action::CreateFile { path } => plan@[i].action == (ActionView::CreateFile {
                path: path@,
            }),
            Action::AppendFile { path, text } => plan@[i].action == (ActionView::AppendFile {
                path: path@,
                text: text@,
            }),
            Action::SedFile { path, find, replace } => plan@[i].action == (ActionView::SedFile {
                path: path@,
                find: find@,
                replace: replace@,
            }),
            Action::CreateDirectory { path } => plan@[i].action == (ActionView::CreateDirectory {
                path: path@,
            }),
            Action::CreateDirectories { path } => plan@[i].action
                == (ActionView::CreateDirectories { path: path@ }),
            Action::WriteFile { path, contents } => plan@[i].action == (ActionView::WriteFile {
                path: path@,
                contents: contents@,
            }),
        },
        match plan.steps@[i].outcome {
            Outcome::Report { label } => plan@[i].outcome == (OutcomeView::Report {
                label: label@,
            }),
            Outcome::Ignore => plan@[i].outcome == OutcomeView::Ignore,
            Outcome::Return => plan@[i].outcome == OutcomeView::Return,
            Outcome::Panic { message } => plan@[i].outcome == (OutcomeView::Panic {
                message: message@,
            }),
        },
        strings(args@).len() == args@.len(),
        strings(args@)[k] == args@[k]@,
{
}

} // verus!
