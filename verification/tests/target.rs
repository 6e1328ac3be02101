use install_core::keyboard::{set_keyboard, set_keyboard_live, Keymap};
use install_core::locale::{locale_pairs_up, set_locale, set_timezone};
use install_core::plan::{Action, ExecMode, OnFail, Outcome, Plan, Step};

/// A step in one line.
fn line(step: &Step) -> String {
    let action = match &step.action {
        Action::Exec { mode, program, args, on_fail } => {
            let place = match mode {
                ExecMode::Direct => "here".to_string(),
                ExecMode::Chroot { root } => format!("in {root}"),
            };
            let rest = match on_fail {
                OnFail::Error => "or fail",
                OnFail::Continue => "or go on",
            };
            format!("run {place} {program} {args:?} {rest}")
        }
        Action::Capture { program, args } => format!("capture {program} {args:?}"),
        Action::CreateFile { path } => format!("create {path}"),
        Action::AppendFile { path, text } => format!("append {path} {text:?}"),
        Action::SedFile { path, find, replace } => format!("sed {path} {find:?} {replace:?}"),
        Action::CreateDirectory { path } => format!("mkdir {path}"),
        Action::CreateDirectories { path } => format!("mkdir -p {path}"),
        Action::WriteFile { path, contents } => format!("write {path} {contents:?}"),
    };
    match &step.outcome {
        Outcome::Report { label } => format!("{action} | {label}"),
        Outcome::Ignore => format!("{action} | ignored"),
        Outcome::Return => format!("{action} | returned"),
        Outcome::Panic { message } => format!("{action} | panic {message}"),
    }
}

fn all(plan: &Plan) -> Vec<String> {
    plan.steps.iter().map(line).collect()
}

fn keymap(console: &str, layout: &str, variant: Option<&str>) -> Keymap {
    Keymap {
        console: console.to_string(),
        xkb_layout: layout.to_string(),
        xkb_variant: variant.map(|text| text.to_string()),
    }
}

fn us() -> Keymap {
    keymap("us", "us", None)
}

const NIX: &str = "/mnt/etc/nixos/hosts/locale/default.nix";

#[test]
fn time_zone() {
    assert_eq!(
        all(&set_timezone("Europe/Rome", false)),
        vec![
            "run in /mnt ln [\"-sf\", \"/usr/share/zoneinfo/Europe/Rome\", \"/etc/localtime\"] or fail | Set timezone",
            "run in /mnt hwclock [\"--systohc\"] or fail | Set system clock",
        ]
    );
    assert_eq!(
        all(&set_timezone("Europe/Rome", true)),
        vec![format!("sed {NIX} \"Europe/Zurich\" \"Europe/Rome\" | Set Timezone")]
    );
}

#[test]
fn locales_go_in_pairs() {
    assert!(locale_pairs_up("en_US.UTF-8 UTF-8"));
    assert!(locale_pairs_up("a b c d"));
    assert!(locale_pairs_up(" "));
    assert!(!locale_pairs_up(""));
    assert!(!locale_pairs_up("en_US.UTF-8"));
    assert!(!locale_pairs_up("a b "));
}

#[test]
fn default_locale_is_only_generated() {
    assert_eq!(
        all(&set_locale("en_US.UTF-8 UTF-8".to_string(), false)),
        vec![
            "create /mnt/etc/locale.conf | ignored",
            "append /mnt/etc/locale.conf \"LANG=en_US.UTF-8\" | Edit locale.conf",
            "create /mnt/etc/locale.gen | ignored",
            "append /mnt/etc/locale.gen \"en_US.UTF-8 UTF-8\\n\" | Add locales to locale.gen",
            "run in /mnt locale-gen [] or fail | Generate locales.",
        ]
    );
}

#[test]
fn other_locales_replace_the_default() {
    assert_eq!(
        all(&set_locale("en_US.UTF-8 UTF-8 de_CH.UTF-8 UTF-8".to_string(), false)),
        vec![
            "create /mnt/etc/locale.conf | ignored",
            "append /mnt/etc/locale.conf \"LANG=en_US.UTF-8\" | Edit locale.conf",
            "create /mnt/etc/locale.gen | ignored",
            "append /mnt/etc/locale.gen \"en_US.UTF-8 UTF-8\\n\" | Add locales to locale.gen",
            "append /mnt/etc/locale.gen \"de_CH.UTF-8 UTF-8\\n\" | Add locales to locale.gen",
            "sed /mnt/etc/locale.conf \"en_US.UTF-8\" \"de_CH.UTF-8\" | Set locale de_CH.UTF-8 in /etc/locale.conf",
            "run in /mnt locale-gen [] or fail | Generate locales.",
        ]
    );
}

#[test]
fn nix_takes_the_first_locale() {
    let one = |locale: &str| all(&set_locale(locale.to_string(), true));
    assert_eq!(
        one("it_IT.UTF-8 UTF-8"),
        vec![format!("sed {NIX} \"en_US.UTF-8\" \"it_IT.UTF-8\" | Set Locale")]
    );
    assert_eq!(one("\tit_IT.UTF-8"), one("it_IT.UTF-8 UTF-8"));
    assert_eq!(
        one(" \n"),
        vec![format!("sed {NIX} \"en_US.UTF-8\" \"en_US.UTF-8\" | Set Locale")]
    );
}

#[test]
fn keyboard_of_the_target() {
    let head = "\nSection \"InputClass\"\n    Identifier \"system-keyboard\"\n    MatchIsKeyboard \"on\"\n";
    let tail = "    Option \"XkbModel\" \"pc105+inet\"\n    Option \"XkbOptions\" \"terminate:ctrl_alt_bksp\"\nEndSection\n";
    let steps = |layout: &str| {
        vec![
            "create /mnt/etc/vconsole.conf | ignored".to_string(),
            "append /mnt/etc/vconsole.conf \"KEYMAP=de-latin1\\n\" | Set keyboard layout for virtual console".to_string(),
            "append /mnt/etc/vconsole.conf \"FONT=ter-u24n\\n\" | Set console font".to_string(),
            "mkdir /mnt/etc/X11/xorg.conf.d | Create /mnt/etc/X11/xorg.conf.d directory".to_string(),
            format!(
                "write /mnt/etc/X11/xorg.conf.d/00-keyboard.conf {:?} | returned",
                format!("{head}{layout}{tail}")
            ),
        ]
    };
    assert_eq!(
        all(&set_keyboard(Some(keymap("de-latin1", "de", None)), us(), false)),
        steps("    Option \"XkbLayout\" \"de\"\n")
    );
    assert_eq!(
        all(&set_keyboard(Some(keymap("de-latin1", "de", Some("nodeadkeys"))), us(), false)),
        steps("    Option \"XkbLayout\" \"de\"\n    Option \"XkbVariant\" \"nodeadkeys\"\n")
    );
}

#[test]
fn keyboard_of_a_nix_target() {
    let mut wanted = vec![
        format!("sed {NIX} {:?} {:?} | Set Console Keyboard Layout (NixOS)", "keyMap = \"us\";", "keyMap = \"sg\";"),
        format!("sed {NIX} {:?} {:?} | Set X11 Keyboard Layout (NixOS)", "layout = \"us\";", "layout = \"ch\";"),
    ];
    assert_eq!(all(&set_keyboard(Some(keymap("sg", "ch", None)), us(), true)), wanted);
    wanted.push(format!(
        "sed {NIX} {:?} {:?} | Set X11 Keyboard Variant (NixOS)",
        "variant = \"\";", "variant = \"fr\";"
    ));
    assert_eq!(all(&set_keyboard(Some(keymap("sg", "ch", Some("fr"))), us(), true)), wanted);
}

#[test]
fn unknown_keyboard_falls_back() {
    assert_eq!(
        all(&set_keyboard(None, us(), true)),
        all(&set_keyboard(Some(us()), keymap("de", "de", None), true))
    );
    let (plan, applied) = set_keyboard_live(None, us());
    assert_eq!(applied.console, "us");
    assert_eq!(plan.steps.len(), 3);
}

#[test]
fn keyboard_of_the_running_system() {
    let (plan, applied) = set_keyboard_live(Some(keymap("sg", "ch", Some("fr"))), us());
    assert_eq!(
        all(&plan),
        vec![
            "run here loadkeys [\"sg\"] or go on | Apply keymap sg to current TTY",
            "write /etc/vconsole.conf \"KEYMAP=sg\\nFONT=ter-u24n\\n\" | returned",
            "capture setxkbmap [\"ch\", \"-variant\", \"fr\"] | ignored",
        ]
    );
    assert_eq!(applied.xkb_layout, "ch");
    assert_eq!(applied.xkb_variant.as_deref(), Some("fr"));
    let (plan, _) = set_keyboard_live(Some(keymap("sg", "ch", None)), us());
    assert_eq!(line(&plan.steps[2]), "capture setxkbmap [\"ch\"] | ignored");
}

#[test]
fn running_system_and_target_are_kept_apart() {
    let (live, _) = set_keyboard_live(None, us());
    assert!(all(&live).iter().all(|step| !step.contains("/mnt")));
    for nix in [true, false] {
        let plans = [
            set_timezone("UTC", nix),
            set_locale("en_US.UTF-8 UTF-8".to_string(), nix),
            set_keyboard(None, us(), nix),
        ];
        for plan in &plans {
            for step in all(plan) {
                assert!(step.contains("/mnt"), "{step}");
                assert_eq!(step.contains("/mnt/etc/nixos/"), nix, "{step}");
            }
        }
    }
}

#[test]
fn live_keyboard_is_overwritten() {
    let write = |keymap: Keymap| {
        let (plan, _) = set_keyboard_live(Some(keymap), us());
        plan.steps
            .into_iter()
            .filter_map(|step| match step.action {
                Action::WriteFile { path, contents } => Some((path, contents)),
                Action::AppendFile { path, .. } => panic!("{path} is appended to"),
                _ => None,
            })
            .collect::<Vec<(String, String)>>()
    };
    let once = write(us());
    assert_eq!(
        once,
        vec![("/etc/vconsole.conf".to_string(), "KEYMAP=us\nFONT=ter-u24n\n".to_string())]
    );
    assert_eq!(write(us()), once);
}

#[test]
fn target_console_is_as_the_live_one() {
    let choice = || Some(keymap("sg", "ch", None));
    let appended: String = set_keyboard(choice(), us(), false)
        .steps
        .into_iter()
        .filter_map(|step| match step.action {
            Action::AppendFile { path, text } if path == "/mnt/etc/vconsole.conf" => Some(text),
            _ => None,
        })
        .collect();
    let (live, _) = set_keyboard_live(choice(), us());
    match &live.steps[1].action {
        Action::WriteFile { contents, .. } => assert_eq!(contents, &appended),
        other => panic!("{other:?}"),
    }
}
