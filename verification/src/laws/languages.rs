//! What a list of locales and a time zone come to.

use vstd::prelude::*;

use crate::locale::{
    entries_steps, entry_steps, locale_steps, pairs_steps, pairs_up, timezone_steps,
    DEFAULT_LOCALE, LOCALE_CONF, LOCALE_GEN,
};
use crate::plan::{ActionView, ExecModeView, OnFail, OutcomeView, StepView};
use crate::text::{
    begins_with, equals, first, lemma_absent, lemma_first, lemma_first_finds, splits,
};

verus! {

/// Pieces on both sides of a separator.
proof fn lemma_splits_both(front: Seq<char>, sep: char, back: Seq<char>)
    ensures
        splits(front + seq![sep] + back, sep) == splits(front, sep) + splits(back, sep),
    decreases front.len(),
{
    let whole = front + seq![sep] + back;
    let pick = equals(sep);
    let end = first(front, pick);
    lemma_first_finds(front, pick);
    assert forall|j: int| 0 <= j < end implies !pick(#[trigger] whole[j]) by {
        assert(whole[j] == front[j]);
    }
    if end < front.len() {
        assert(whole[end as int] == front[end as int]);
        lemma_first(whole, pick, end);
        let rest = front.skip(end as int + 1);
        assert(whole.take(end as int) =~= front.take(end as int));
        assert(whole.skip(end as int + 1) =~= rest + seq![sep] + back);
        lemma_splits_both(rest, sep, back);
        assert(splits(whole, sep) =~= splits(front, sep) + splits(back, sep));
    } else {
        assert(whole[end as int] == sep);
        lemma_first(whole, pick, end);
        assert(whole.take(end as int) =~= front);
        assert(whole.skip(end as int + 1) =~= back);
    }
}

/// `locale` followed by one more locale and its character set.
pub open spec fn one_more(locale: Seq<char>, name: Seq<char>, charset: Seq<char>) -> Seq<char> {
    locale + seq![' '] + (name + seq![' '] + charset)
}

proof fn lemma_pair(name: Seq<char>, charset: Seq<char>)
    requires
        !name.contains(' '),
        !charset.contains(' '),
    ensures
        splits(name + seq![' '] + charset, ' ') == seq![name, charset],
{
    lemma_splits_both(name, ' ', charset);
    lemma_absent(name, ' ');
    lemma_absent(charset, ' ');
    assert(seq![name] + seq![charset] =~= seq![name, charset]);
}

/// A list pairs up exactly if words come in twos: a locale with its character set
/// does, and each further word changes it.
pub proof fn law_lists_pair_up(locale: Seq<char>, name: Seq<char>, charset: Seq<char>)
    requires
        !name.contains(' '),
        !charset.contains(' '),
    ensures
        !pairs_up(name),
        pairs_up(name + seq![' '] + charset),
        pairs_up(locale + seq![' '] + name) == !pairs_up(locale),
        pairs_up(one_more(locale, name, charset)) == pairs_up(locale),
{
    lemma_pair(name, charset);
    lemma_absent(name, ' ');
    lemma_splits_both(locale, ' ', name);
    lemma_splits_both(locale, ' ', name + seq![' '] + charset);
}

proof fn lemma_same_entries(words: Seq<Seq<char>>, more: Seq<Seq<char>>, n: nat)
    requires
        2 * n <= words.len(),
    ensures
        entries_steps(words + more, n) == entries_steps(words, n),
    decreases n,
{
    if n > 0 {
        lemma_same_entries(words, more, (n - 1) as nat);
        assert((words + more)[2 * n - 2] == words[2 * n - 2]);
        assert((words + more)[2 * n - 1] == words[2 * n - 1]);
    }
}

/// What a locale and its character set are to lead to: a line in `locale.gen`, and
/// for any but American English that locale in `locale.conf` in its place.
pub open spec fn wanted_for(name: Seq<char>, charset: Seq<char>) -> Seq<StepView> {
    let line = StepView {
        action: ActionView::AppendFile {
            path: "/mnt/etc/locale.gen"@,
            text: name + " "@ + charset + "\n"@,
        },
        outcome: OutcomeView::Report { label: "Add locales to locale.gen"@ },
    };
    let language = StepView {
        action: ActionView::SedFile {
            path: "/mnt/etc/locale.conf"@,
            find: "en_US.UTF-8"@,
            replace: name,
        },
        outcome: OutcomeView::Report {
            label: "Set locale "@ + name + " in "@ + "/etc/locale.conf"@,
        },
    };
    if name == "en_US.UTF-8"@ {
        seq![line]
    } else {
        seq![line, language]
    }
}

proof fn lemma_wanted(name: Seq<char>, charset: Seq<char>)
    ensures
        entry_steps(name, charset) == wanted_for(name, charset),
{
    reveal_strlit(" in ");
    reveal_strlit("/etc/locale.conf");
    reveal_strlit(" in /etc/locale.conf");
    assert(" in "@ + "/etc/locale.conf"@ =~= " in /etc/locale.conf"@);
    assert("Set locale "@ + name + " in "@ + "/etc/locale.conf"@ =~= "Set locale "@ + name
        + (" in "@ + "/etc/locale.conf"@));
}

/// One locale: `locale.conf` is created and says American English, `locale.gen` is
/// created, both follow the locale, and then the locales are generated in the
/// system to be installed.
pub proof fn law_one_locale_is_set(name: Seq<char>, charset: Seq<char>)
    requires
        !name.contains(' '),
        !charset.contains(' '),
    ensures
        locale_steps(name + seq![' '] + charset, false) == seq![
            StepView {
                action: ActionView::CreateFile { path: "/mnt/etc/locale.conf"@ },
                outcome: OutcomeView::Ignore,
            },
            StepView {
                action: ActionView::AppendFile {
                    path: "/mnt/etc/locale.conf"@,
                    text: "LANG="@ + "en_US.UTF-8"@,
                },
                outcome: OutcomeView::Report { label: "Edit locale.conf"@ },
            },
            StepView {
                action: ActionView::CreateFile { path: "/mnt/etc/locale.gen"@ },
                outcome: OutcomeView::Ignore,
            },
        ] + wanted_for(name, charset) + seq![
            StepView {
                action: ActionView::Exec {
                    mode: ExecModeView::Chroot { root: "/mnt"@ },
                    program: "locale-gen"@,
                    args: seq![],
                    on_fail: OnFail::Error,
                },
                outcome: OutcomeView::Report { label: "Generate locales."@ },
            },
        ],
{
    lemma_pair(name, charset);
    lemma_wanted(name, charset);
    let words = seq![name, charset];
    reveal_strlit("LANG=");
    reveal_strlit("en_US.UTF-8");
    reveal_strlit("LANG=en_US.UTF-8");
    assert("LANG="@ + "en_US.UTF-8"@ =~= "LANG=en_US.UTF-8"@);
    assert(entries_steps(words, 0) =~= seq![]);
    assert(words[0] == name && words[1] == charset);
    assert(entries_steps(words, 1) =~= entry_steps(name, charset)) by {
        reveal_with_fuel(entries_steps, 2);
    }
}

/// One more locale at the end of a list changes nothing of what the list leads to:
/// just what that locale leads to is done before the locales are generated.
pub proof fn law_one_more_locale_adds_its_own(
    locale: Seq<char>,
    name: Seq<char>,
    charset: Seq<char>,
)
    requires
        pairs_up(locale),
        !name.contains(' '),
        !charset.contains(' '),
    ensures
        ({
            let before = locale_steps(locale, false);
            locale_steps(one_more(locale, name, charset), false) == before.drop_last()
                + wanted_for(name, charset) + seq![before.last()]
        }),
{
    let words = splits(locale, ' ');
    let added = seq![name, charset];
    let all = words + added;
    lemma_splits_both(locale, ' ', name + seq![' '] + charset);
    lemma_pair(name, charset);
    lemma_wanted(name, charset);
    let n: nat = words.len() / 2;
    assert(words.len() == 2 * n);
    assert(all.len() / 2 == n + 1);
    lemma_same_entries(words, added, n);
    assert(all[2 * n as int] == name && all[2 * n as int + 1] == charset);
    let before = locale_steps(locale, false);
    let after = locale_steps(one_more(locale, name, charset), false);
    assert(entries_steps(all, n + 1) == entries_steps(words, n) + entry_steps(name, charset));
    assert(after == pairs_steps(all));
    assert(after =~= before.drop_last() + entry_steps(name, charset) + seq![before.last()]);
}

/// What `LANG` says in `locale.conf` of the system to be installed once `steps` have
/// been followed, `before` being what it said. The file says nothing when it has been
/// created; a line that is added says what stands in it; and a replacement takes hold
/// where its pattern, read letter by letter, is what `LANG` says.
pub open spec fn lang_after(steps: Seq<StepView>, before: Option<Seq<char>>) -> Option<Seq<char>>
    decreases steps.len(),
{
    if steps.len() == 0 {
        before
    } else {
        let held = lang_after(steps.drop_last(), before);
        match steps.last().action {
            ActionView::CreateFile { path } if path == "/mnt/etc/locale.conf"@ => None,
            ActionView::AppendFile { path, text } if path == "/mnt/etc/locale.conf"@
                && begins_with(text, "LANG="@) => Some(text.skip("LANG="@.len() as int)),
            ActionView::SedFile { path, find, replace } if path == "/mnt/etc/locale.conf"@ && held
                == Some(find) => Some(replace),
            _ => held,
        }
    }
}

proof fn lemma_lang_after(steps: Seq<StepView>, more: Seq<StepView>, before: Option<Seq<char>>)
    ensures
        lang_after(steps + more, before) == lang_after(more, lang_after(steps, before)),
    decreases more.len(),
{
    let all = steps + more;
    if more.len() == 0 {
        assert(all =~= steps);
    } else {
        assert(all.drop_last() =~= steps + more.drop_last());
        assert(all.last() == more.last());
        lemma_lang_after(steps, more.drop_last(), before);
    }
}

proof fn lemma_entry_lang(name: Seq<char>, charset: Seq<char>, held: Option<Seq<char>>)
    ensures
        lang_after(entry_steps(name, charset), held) == if held == Some("en_US.UTF-8"@) {
            Some(name)
        } else {
            held
        },
{
    let steps = entry_steps(name, charset);
    reveal_strlit("/mnt/etc/locale.conf");
    reveal_strlit("/mnt/etc/locale.gen");
    assert(LOCALE_CONF@.len() != LOCALE_GEN@.len());
    reveal_with_fuel(lang_after, 3);
    if name == DEFAULT_LOCALE@ {
        assert(steps.drop_last() =~= seq![]);
    } else {
        assert(steps.drop_last().drop_last() =~= seq![]);
        assert(steps.drop_last().last() == steps[0]);
    }
}

proof fn lemma_entries_lang(words: Seq<Seq<char>>, n: nat, k: int)
    requires
        0 <= k,
        forall|j: int| 0 <= j < k && j < n ==> #[trigger] words[2 * j] == "en_US.UTF-8"@,
        k < n ==> words[2 * k] != "en_US.UTF-8"@,
    ensures
        lang_after(entries_steps(words, n), Some("en_US.UTF-8"@)) == Some(
            if k < n {
                words[2 * k]
            } else {
                "en_US.UTF-8"@
            },
        ),
    decreases n,
{
    if n > 0 {
        let m = (n - 1) as nat;
        lemma_entries_lang(words, m, k);
        lemma_lang_after(
            entries_steps(words, m),
            entry_steps(words[2 * n - 2], words[2 * n - 1]),
            Some("en_US.UTF-8"@),
        );
        let held = lang_after(entries_steps(words, m), Some("en_US.UTF-8"@));
        lemma_entry_lang(words[2 * n - 2], words[2 * n - 1], held);
        assert(words[2 * n - 2] == words[2 * m as int]);
        if m < k {
            assert(words[2 * m as int] == "en_US.UTF-8"@);
        }
    }
}

/// The language of the system to be installed is the first one that is listed other
/// than American English, and American English where no other is; what `locale.conf`
/// said before does not matter. `k` counts the entries for American English that
/// stand first.
pub proof fn law_language_is_the_first_other(locale: Seq<char>, k: int, before: Option<Seq<char>>)
    requires
        0 <= k <= splits(locale, ' ').len() / 2,
        forall|j: int| 0 <= j < k ==> #[trigger] splits(locale, ' ')[2 * j] == "en_US.UTF-8"@,
        k < splits(locale, ' ').len() / 2 ==> splits(locale, ' ')[2 * k] != "en_US.UTF-8"@,
    ensures
        lang_after(locale_steps(locale, false), before) == Some(
            if k < splits(locale, ' ').len() / 2 {
                splits(locale, ' ')[2 * k]
            } else {
                "en_US.UTF-8"@
            },
        ),
{
    let words = splits(locale, ' ');
    let n: nat = words.len() / 2;
    let steps = locale_steps(locale, false);
    let start = steps.take(3);
    let entries = entries_steps(words, n);
    let end = seq![steps.last()];
    assert(steps =~= start + entries + end);
    reveal_strlit("LANG=");
    reveal_strlit("en_US.UTF-8");
    reveal_strlit("LANG=en_US.UTF-8");
    let line = "LANG=en_US.UTF-8"@;
    assert(line.subrange(0, 5) =~= "LANG="@);
    assert(line.skip(5) =~= "en_US.UTF-8"@);
    reveal_strlit("/mnt/etc/locale.conf");
    reveal_strlit("/mnt/etc/locale.gen");
    assert(LOCALE_CONF@.len() != LOCALE_GEN@.len());
    assert(lang_after(start, before) == Some("en_US.UTF-8"@)) by {
        reveal_with_fuel(lang_after, 4);
        assert(start.last() == steps[2]);
        assert(start.drop_last().last() == steps[1]);
        assert(start.drop_last().drop_last().last() == steps[0]);
    }
    lemma_lang_after(start, entries, before);
    lemma_entries_lang(words, n, k);
    lemma_lang_after(start + entries, end, before);
    assert(end.drop_last() =~= seq![]);
    reveal_with_fuel(lang_after, 2);
}

proof fn lemma_entry_held(words: Seq<Seq<char>>, n: nat, k: int, step: StepView)
    requires
        0 <= k < n,
        entry_steps(words[2 * k], words[2 * k + 1]).contains(step),
    ensures
        entries_steps(words, n).contains(step),
    decreases n,
{
    let all = entries_steps(words, n);
    let before = entries_steps(words, (n - 1) as nat);
    if k == n - 1 {
        let entry = entry_steps(words[2 * n - 2], words[2 * n - 1]);
        let i = choose|i: int| 0 <= i < entry.len() && entry[i] == step;
        assert(all[before.len() + i] == step);
    } else {
        lemma_entry_held(words, (n - 1) as nat, k, step);
        let i = choose|i: int| 0 <= i < before.len() && before[i] == step;
        assert(all[i] == step);
    }
}

/// Every locale of a list, wherever it stands in it, leads to all that it is to lead
/// to: it is among what is generated, and any but American English is offered to
/// `locale.conf`.
pub proof fn law_every_locale_counts(locale: Seq<char>, k: int, step: StepView)
    requires
        0 <= k,
        2 * k + 1 < splits(locale, ' ').len(),
        wanted_for(splits(locale, ' ')[2 * k], splits(locale, ' ')[2 * k + 1]).contains(step),
    ensures
        locale_steps(locale, false).drop_last().contains(step),
{
    let words = splits(locale, ' ');
    let steps = locale_steps(locale, false);
    let entries = entries_steps(words, words.len() / 2);
    lemma_wanted(words[2 * k], words[2 * k + 1]);
    lemma_entry_held(words, words.len() / 2, k, step);
    let i = choose|i: int| 0 <= i < entries.len() && entries[i] == step;
    assert(steps.drop_last()[3 + i] == step);
}

/// The time zone: in the system to be installed a link to its file is put in place
/// of the local time, and then the hardware clock is set.
pub proof fn law_time_zone_is_linked(timezone: Seq<char>)
    ensures
        timezone_steps(timezone, false) == seq![
            StepView {
                action: ActionView::Exec {
                    mode: ExecModeView::Chroot { root: "/mnt"@ },
                    program: "ln"@,
                    args: seq![
                        "-sf"@,
                        "/usr/share/zoneinfo"@ + "/"@ + timezone,
                        "/etc/localtime"@,
                    ],
                    on_fail: OnFail::Error,
                },
                outcome: OutcomeView::Report { label: "Set timezone"@ },
            },
            StepView {
                action: ActionView::Exec {
                    mode: ExecModeView::Chroot { root: "/mnt"@ },
                    program: "hwclock"@,
                    args: seq!["--systohc"@],
                    on_fail: OnFail::Error,
                },
                outcome: OutcomeView::Report { label: "Set system clock"@ },
            },
        ],
{
    reveal_strlit("/usr/share/zoneinfo");
    reveal_strlit("/");
    reveal_strlit("/usr/share/zoneinfo/");
    assert("/usr/share/zoneinfo"@ + "/"@ =~= "/usr/share/zoneinfo/"@);
}

/// Time zones are told apart: different ones give different plans.
pub proof fn law_time_zones_are_told_apart(timezone: Seq<char>, other: Seq<char>, nix: bool)
    requires
        timezone != other,
    ensures
        timezone_steps(timezone, nix) != timezone_steps(other, nix),
{
    let steps = timezone_steps(timezone, nix);
    let others = timezone_steps(other, nix);
    if steps == others {
        if nix {
            assert(steps[0].action->replace == timezone);
            assert(others[0].action->replace == other);
        } else {
            let lead = "/usr/share/zoneinfo/"@;
            assert(steps[0].action->Exec_args[1] == lead + timezone);
            assert(others[0].action->Exec_args[1] == lead + other);
            assert((lead + timezone).skip(lead.len() as int) =~= timezone);
            assert((lead + other).skip(lead.len() as int) =~= other);
        }
    }
}

} // verus!
