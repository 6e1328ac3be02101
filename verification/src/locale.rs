//! Time zone and language of the system to be installed.

use vstd::prelude::*;
use vstd::string::*;

use crate::plan::{
    append_step, create_step, exec_step, sed_step, ExecMode, ExecModeView, OnFail, Plan, StepView,
};
use crate::text::{first_word, first_word_of, same, split_on, splits, strings, texts};

verus! {

/// The NixOS module that sets time zone, language and keyboard.
pub const NIX_LOCALE: &'static str = "/mnt/etc/nixos/hosts/locale/default.nix";

/// The language that a system has unless another one is asked for.
pub const DEFAULT_LOCALE: &'static str = "en_US.UTF-8";

pub const LOCALE_CONF: &'static str = "/mnt/etc/locale.conf";

pub const LOCALE_GEN: &'static str = "/mnt/etc/locale.gen";

/// A run inside the system to be installed.
pub open spec fn in_target() -> ExecModeView {
    ExecModeView::Chroot { root: "/mnt"@ }
}

/// What setting the time zone comes to.
pub open spec fn timezone_steps(timezone: Seq<char>, nix: bool) -> Seq<StepView> {
    if nix {
        seq![sed_step(NIX_LOCALE@, "Europe/Zurich"@, timezone, "Set Timezone"@)]
    } else {
        seq![
            exec_step(
                in_target(),
                "ln"@,
                seq!["-sf"@, "/usr/share/zoneinfo/"@ + timezone, "/etc/localtime"@],
                OnFail::Error,
                "Set timezone"@,
            ),
            exec_step(
                in_target(),
                "hwclock"@,
                seq!["--systohc"@],
                OnFail::Error,
                "Set system clock"@,
            ),
        ]
    }
}

/// The addition of a locale and its character set to `locale.gen`.
pub open spec fn append_line(name: Seq<char>, charset: Seq<char>) -> StepView {
    append_step(LOCALE_GEN@, name + " "@ + charset + "\n"@, "Add locales to locale.gen"@)
}

/// What one locale and its character set come to: a line of `locale.gen` and, for
/// any but the default locale, that locale in place of the default one.
pub open spec fn entry_steps(name: Seq<char>, charset: Seq<char>) -> Seq<StepView> {
    let line = append_line(name, charset);
    if name == DEFAULT_LOCALE@ {
        seq![line]
    } else {
        seq![
            line,
            sed_step(
                LOCALE_CONF@,
                "en_US.UTF-8"@,
                name,
                "Set locale "@ + name + " in /etc/locale.conf"@,
            ),
        ]
    }
}

/// What the first `n` pairs of `words` come to, each a locale and its character
/// set.
pub open spec fn entries_steps(words: Seq<Seq<char>>, n: nat) -> Seq<StepView>
    decreases n,
{
    if n == 0 {
        seq![]
    } else {
        entries_steps(words, (n - 1) as nat) + entry_steps(words[2 * n - 2], words[2 * n - 1])
    }
}

/// What setting the locales that `words` pair up comes to.
pub open spec fn pairs_steps(words: Seq<Seq<char>>) -> Seq<StepView> {
    seq![
        create_step(LOCALE_CONF@),
        append_step(LOCALE_CONF@, "LANG=en_US.UTF-8"@, "Edit locale.conf"@),
        create_step(LOCALE_GEN@),
    ] + entries_steps(words, words.len() / 2) + seq![
        exec_step(in_target(), "locale-gen"@, seq![], OnFail::Error, "Generate locales."@),
    ]
}

/// The first word of `locale`, or the default locale where there is none.
pub open spec fn nix_locale(locale: Seq<char>) -> Seq<char> {
    match first_word_of(locale) {
        Some(word) => word,
        None => DEFAULT_LOCALE@,
    }
}

/// What setting the locales that `locale` lists comes to.
pub open spec fn locale_steps(locale: Seq<char>, nix: bool) -> Seq<StepView> {
    if nix {
        seq![sed_step(NIX_LOCALE@, "en_US.UTF-8"@, nix_locale(locale), "Set Locale"@)]
    } else {
        pairs_steps(splits(locale, ' '))
    }
}

/// Whether the words of `locale`, one space between neighbours, pair up.
pub open spec fn pairs_up(locale: Seq<char>) -> bool {
    splits(locale, ' ').len() % 2 == 0
}

/// The system to be installed.
pub(crate) fn target() -> (mode: ExecMode)
    ensures
        mode@ == in_target(),
{
    ExecMode::Chroot { root: "/mnt".to_string() }
}

/// Sets the time zone of the system to be installed.
pub fn set_timezone(timezone: &str, nix: bool) -> (plan: Plan)
    ensures
        plan@ == timezone_steps(timezone@, nix),
{
    let mut plan = Plan::new();
    if !nix {
        let zone = "/usr/share/zoneinfo/".to_string().concat(timezone);
        let link: Vec<String> = vec!["-sf".to_string(), zone, "/etc/localtime".to_string()];
        assert(strings(link@) =~= seq![
            "-sf"@,
            "/usr/share/zoneinfo/"@ + timezone@,
            "/etc/localtime"@,
        ]);
        plan.exec(target(), "ln", link, OnFail::Error, "Set timezone");
        let clock: Vec<String> = vec!["--systohc".to_string()];
        assert(strings(clock@) =~= seq!["--systohc"@]);
        plan.exec(target(), "hwclock", clock, OnFail::Error, "Set system clock");
    } else {
        plan.sed(NIX_LOCALE, "Europe/Zurich", timezone, "Set Timezone");
    }
    plan
}

/// Whether the words of `locale` pair up, as `set_locale` asks of a system other
/// than NixOS.
pub fn locale_pairs_up(locale: &str) -> (yes: bool)
    ensures
        yes == pairs_up(locale@),
{
    let words = split_on(locale, ' ');
    assert(texts(words@).len() == words@.len());
    words.len() % 2 == 0
}

/// Adds what one locale and its character set come to.
fn add_entry(plan: &mut Plan, name: &str, charset: &str)
    ensures
        final(plan)@ == old(plan)@ + entry_steps(name@, charset@),
{
    let mut line = name.to_string();
    line.append(" ");
    line.append(charset);
    line.append("\n");
    plan.append(LOCALE_GEN, line.as_str(), "Add locales to locale.gen");
    if !same(name, DEFAULT_LOCALE) {
        let label = "Set locale ".to_string().concat(name).concat(" in /etc/locale.conf");
        plan.sed(LOCALE_CONF, "en_US.UTF-8", name, label.as_str());
    }
    assert(plan@ =~= old(plan)@ + entry_steps(name@, charset@));
}

/// Sets the locales of the system to be installed. `locale` lists them, each
/// followed by its character set, with single spaces between: such as
/// `en_US.UTF-8 UTF-8 de_CH.UTF-8 UTF-8`. NixOS takes only the first one.
pub fn set_locale(locale: String, nix: bool) -> (plan: Plan)
    requires
        !nix ==> pairs_up(locale@),
    ensures
        plan@ == locale_steps(locale@, nix),
{
    let mut plan = Plan::new();
    if !nix {
        let words = split_on(locale.as_str(), ' ');
        let ghost every = texts(words@);
        plan.create(LOCALE_CONF);
        plan.append(LOCALE_CONF, "LANG=en_US.UTF-8", "Edit locale.conf");
        plan.create(LOCALE_GEN);
        let ghost start = plan@;
        let mut k: usize = 0;
        assert(start =~= start + entries_steps(every, 0));
        while k < words.len() / 2
            invariant
                every == texts(words@),
                every.len() % 2 == 0,
                k <= every.len() / 2,
                plan@ == start + entries_steps(every, k as nat),
            decreases words@.len() / 2 - k,
        {
            let ghost before = plan@;
            add_entry(&mut plan, words[2 * k], words[2 * k + 1]);
            assert(plan@ =~= start + entries_steps(every, (k + 1) as nat));
            k = k + 1;
        }
        let none: Vec<String> = Vec::new();
        assert(strings(none@) =~= seq![]);
        plan.exec(target(), "locale-gen", none, OnFail::Error, "Generate locales.");
    } else {
        let word = match first_word(locale.as_str()) {
            Some(word) => word,
            None => DEFAULT_LOCALE,
        };
        plan.sed(NIX_LOCALE, "en_US.UTF-8", word, "Set Locale");
    }
    assert(plan@ =~= locale_steps(locale@, nix));
    plan
}

} // verus!
