use vstd::prelude::*;
use crate::check::{code_of, listing_result, parse_listing, CommandOutput};
use crate::nixos::{says_up_to_date, rebuild_summary, flake_entries, regex_captures, FLAKE_INPUT_PATTERN};
use crate::package_manager::{entry, is_noise, parse_line, upgradable_from, PackageManager, UpdateView};
use crate::text::{contains, find, is_ws, occurs_at, rfind, split_on, tokens, trim};

verus! {

/// No character of `w` is whitespace.
pub open spec fn no_ws(w: Seq<char>) -> bool {
    forall|i: int| 0 <= i < w.len() ==> !is_ws(#[trigger] w[i])
}

/// No character of `w` is `c`.
pub open spec fn free_of(w: Seq<char>, c: char) -> bool {
    forall|i: int| 0 <= i < w.len() ==> #[trigger] w[i] != c
}

/// A non-empty word without whitespace is one token.
pub proof fn lemma_tokens_word(w: Seq<char>)
    requires
        w.len() > 0,
        no_ws(w),
    ensures
        tokens(w) == seq![w],
    decreases w.len(),
{
    if w.len() == 1 {
        assert(w.drop_last() =~= seq![]);
        assert(tokens(w.drop_last()) =~= seq![]);
        assert(!is_ws(w[0]));
        assert(seq![w.last()] =~= w);
        assert(tokens(w) =~= seq![w]);
    } else {
        lemma_tokens_word(w.drop_last());
        assert(!is_ws(w[w.len() - 2]));
        assert(!is_ws(w[w.len() - 1]));
        assert(w.drop_last().push(w.last()) =~= w);
        assert(tokens(w) =~= seq![w]);
    }
}

/// A space and a word after a text add that word as one more token.
pub proof fn lemma_tokens_append_word(x: Seq<char>, w: Seq<char>)
    requires
        w.len() > 0,
        no_ws(w),
    ensures
        tokens(x + seq![' '] + w) == tokens(x).push(w),
    decreases w.len(),
{
    let s = x + seq![' '] + w;
    assert(is_ws(' '));
    assert((x + seq![' ']).drop_last() =~= x);
    assert(tokens(x + seq![' ']) == tokens(x));
    if w.len() == 1 {
        assert(s.drop_last() =~= x + seq![' ']);
        assert(s[s.len() - 2] == ' ');
        assert(seq![w.last()] =~= w);
    } else {
        let w0 = w.drop_last();
        lemma_tokens_append_word(x, w0);
        assert(s.drop_last() =~= x + seq![' '] + w0);
        assert(s[s.len() - 2] == w0.last());
        assert(w0.push(w.last()) =~= w);
    }
}

/// A separator and a piece free of it after a text add that piece.
pub proof fn lemma_split_append_piece(x: Seq<char>, sep: char, w: Seq<char>)
    requires
        free_of(w, sep),
    ensures
        split_on(x + seq![sep] + w, sep) == split_on(x, sep).push(w),
    decreases w.len(),
{
    let s = x + seq![sep] + w;
    if w.len() == 0 {
        assert(s =~= x + seq![sep]);
        assert(s.drop_last() =~= x);
        assert(w =~= seq![]);
    } else {
        let w0 = w.drop_last();
        lemma_split_append_piece(x, sep, w0);
        assert(s.drop_last() =~= x + seq![sep] + w0);
        assert(s.last() == w[w.len() - 1]);
        assert(w0.push(w.last()) =~= w);
        assert(split_on(s, sep) =~= split_on(x, sep).push(w));
    }
}

/// A text free of the separator is one piece.
pub proof fn lemma_split_single(w: Seq<char>, sep: char)
    requires
        free_of(w, sep),
    ensures
        split_on(w, sep) == seq![w],
    decreases w.len(),
{
    if w.len() > 0 {
        lemma_split_single(w.drop_last(), sep);
        assert(w.drop_last().push(w.last()) =~= w);
    } else {
        assert(w =~= seq![]);
    }
}

/// The first piece of a text is what stands before its first separator.
pub proof fn lemma_split_first(name: Seq<char>, sep: char, rest: Seq<char>)
    requires
        free_of(name, sep),
    ensures
        split_on(name + seq![sep] + rest, sep).len() >= 2,
        split_on(name + seq![sep] + rest, sep)[0] == name,
    decreases rest.len(),
{
    let s = name + seq![sep] + rest;
    if rest.len() == 0 {
        assert(s =~= name + seq![sep]);
        assert(s.drop_last() =~= name);
        lemma_split_single(name, sep);
    } else {
        lemma_split_first(name, sep, rest.drop_last());
        assert(s.drop_last() =~= name + seq![sep] + rest.drop_last());
    }
}

/// An Arch-family line `name old -> new` yields exactly those fields.
pub proof fn arch_line_with_arrow(name: Seq<char>, old: Seq<char>, new: Seq<char>, pm: PackageManager, is_aur: bool)
    requires
        pm == PackageManager::Pacman || pm == PackageManager::Paru || pm == PackageManager::Yay,
        name.len() > 0 && no_ws(name),
        old.len() > 0 && no_ws(old),
        new.len() > 0 && no_ws(new),
        !is_noise(name + " "@ + old + " -> "@ + new),
    ensures
        parse_line(pm, name + " "@ + old + " -> "@ + new, is_aur) == Some(entry(name, old, new, is_aur)),
{
    reveal_strlit(" ");
    reveal_strlit(" -> ");
    reveal_strlit("->");
    let arrow = seq!['-', '>'];
    assert("->"@ =~= arrow);
    let line = name + " "@ + old + " -> "@ + new;
    let a = name + seq![' '] + old;
    let b = a + seq![' '] + arrow;
    assert(line =~= b + seq![' '] + new);
    assert(no_ws(arrow)) by {
        assert(!is_ws('-') && !is_ws('>'));
    }
    lemma_tokens_word(name);
    lemma_tokens_append_word(name, old);
    lemma_tokens_append_word(a, arrow);
    lemma_tokens_append_word(b, new);
    let k: int = (name.len() + 1 + old.len()) as int;
    assert(line.subrange(k, k + 4) =~= " -> "@);
    assert(occurs_at(line, " -> "@, k));
    assert(contains(line, " -> "@));
}

/// An Arch-family line `name new` yields the name, the new version, and an
/// unknown current version.
pub proof fn arch_line_without_arrow(name: Seq<char>, new: Seq<char>, pm: PackageManager, is_aur: bool)
    requires
        pm == PackageManager::Pacman || pm == PackageManager::Paru || pm == PackageManager::Yay,
        name.len() > 0 && no_ws(name),
        new.len() > 0 && no_ws(new),
        !is_noise(name + " "@ + new),
    ensures
        parse_line(pm, name + " "@ + new, is_aur) == Some(entry(name, "unknown"@, new, is_aur)),
{
    reveal_strlit(" ");
    reveal_strlit(" -> ");
    let line = name + " "@ + new;
    assert(line =~= name + seq![' '] + new);
    lemma_tokens_word(name);
    lemma_tokens_append_word(name, new);
    assert forall|i: int| !occurs_at(line, " -> "@, i) by {
        if occurs_at(line, " -> "@, i) {
            assert(line.subrange(i, i + 4)[0] == ' ');
            assert(line.subrange(i, i + 4)[3] == ' ');
            assert(line[i] == ' ' && line[i + 3] == ' ');
            assert(is_ws(' '));
            if i < name.len() {
                assert(line[i] == name[i]);
            } else {
                assert(line[i + 3] == new[i + 3 - name.len() - 1]);
            }
        }
    }
}

/// A dnf line `name.arch new ...` yields the name before the first dot and the
/// new version.
pub proof fn dnf_line(name: Seq<char>, arch: Seq<char>, new: Seq<char>, is_aur: bool)
    requires
        name.len() > 0 && no_ws(name) && free_of(name, '.'),
        no_ws(arch),
        new.len() > 0 && no_ws(new),
        !is_noise(name + "."@ + arch + " "@ + new),
    ensures
        parse_line(PackageManager::Dnf, name + "."@ + arch + " "@ + new, is_aur) == Some(
            entry(name, "unknown"@, new, false),
        ),
{
    reveal_strlit(" ");
    reveal_strlit(".");
    let first = name + seq!['.'] + arch;
    let line = name + "."@ + arch + " "@ + new;
    assert(line =~= first + seq![' '] + new);
    assert(no_ws(first)) by {
        assert(!is_ws('.'));
        assert forall|i: int| 0 <= i < first.len() implies !is_ws(#[trigger] first[i]) by {
            if i < name.len() {
                assert(first[i] == name[i]);
            } else if i > name.len() {
                assert(first[i] == arch[i - name.len() - 1]);
            }
        }
    }
    lemma_tokens_word(first);
    lemma_tokens_append_word(first, new);
    lemma_split_first(name, '.', arch);
}

/// A flatpak line `name<TAB>id<TAB>version` yields the name and the version.
pub proof fn flatpak_line(name: Seq<char>, id: Seq<char>, version: Seq<char>, is_aur: bool)
    requires
        free_of(name, '\t') && free_of(id, '\t') && free_of(version, '\t'),
        !is_noise(name + "\t"@ + id + "\t"@ + version),
    ensures
        parse_line(PackageManager::Flatpak, name + "\t"@ + id + "\t"@ + version, is_aur) == Some(
            entry(name, "unknown"@, version, false),
        ),
{
    reveal_strlit("\t");
    let line = name + "\t"@ + id + "\t"@ + version;
    let a = name + seq!['\t'] + id;
    assert(line =~= a + seq!['\t'] + version);
    lemma_split_single(name, '\t');
    lemma_split_append_piece(name, '\t', id);
    lemma_split_append_piece(a, '\t', version);
}

/// Banner, rule and blank lines yield no entry, whatever the manager.
pub proof fn noise_lines_yield_nothing(pm: PackageManager, line: Seq<char>, is_aur: bool)
    requires
        is_noise(line),
    ensures
        parse_line(pm, line, is_aur) is None,
{
}

/// The exit codes that do not mean failure: `checkupdates` exiting with 2 and
/// an AUR helper exiting with 1 mean no updates; `dnf` exiting with 100 lists
/// updates, which are parsed.
pub proof fn tolerated_exit_codes(pm: PackageManager, out: CommandOutput, is_aur: bool)
    requires
        !out.success,
    ensures
        code_of(out) == 2 ==> listing_result(pm, "checkupdates"@, out, is_aur) == Ok::<Seq<UpdateView>, Seq<char>>(seq![]),
        code_of(out) == 1 ==> listing_result(pm, "paru"@, out, is_aur) == Ok::<Seq<UpdateView>, Seq<char>>(seq![]),
        code_of(out) == 1 ==> listing_result(pm, "yay"@, out, is_aur) == Ok::<Seq<UpdateView>, Seq<char>>(seq![]),
        code_of(out) == 100 ==> listing_result(pm, "dnf"@, out, is_aur) == Ok::<Seq<UpdateView>, Seq<char>>(parse_listing(pm, out.stdout@, is_aur)),
{
}

/// Parsing depends on the raw output alone: the same output parsed twice gives
/// the same result.
pub proof fn parsing_is_repeatable(pm: PackageManager, first: Seq<char>, second: Seq<char>, is_aur: bool)
    requires
        first == second,
    ensures
        parse_listing(pm, first, is_aur) == parse_listing(pm, second, is_aur),
        rebuild_summary(first) == rebuild_summary(second),
        flake_entries(regex_captures(FLAKE_INPUT_PATTERN@, first)) == flake_entries(
            regex_captures(FLAKE_INPUT_PATTERN@, second),
        ),
{
}

/// `p` occurs at `k` in `s`, and nowhere before: `find` gives `k`.
pub proof fn lemma_find_first(s: Seq<char>, p: Seq<char>, k: int)
    requires
        occurs_at(s, p, k),
        forall|j: int| 0 <= j < k ==> !occurs_at(s, p, j),
    ensures
        find(s, p) == Some(k),
        contains(s, p),
{
    reveal(find);
    let w = choose|i: int| occurs_at(s, p, i) && forall|j: int| 0 <= j < i ==> !occurs_at(s, p, j);
    assert(w == k) by {
        if w < k {
        } else if w > k {
        }
    }
}

/// A text whose first character does not occur in `prefix` is first found
/// right after `prefix`.
pub proof fn lemma_find_after_prefix(prefix: Seq<char>, p: Seq<char>, rest: Seq<char>)
    requires
        p.len() > 0,
        free_of(prefix, p[0]),
    ensures
        find(prefix + p + rest, p) == Some(prefix.len() as int),
        contains(prefix + p + rest, p),
{
    let s = prefix + p + rest;
    let k = prefix.len() as int;
    assert(s.subrange(k, k + p.len()) =~= p);
    assert forall|j: int| 0 <= j < k implies !occurs_at(s, p, j) by {
        if occurs_at(s, p, j) {
            assert(s.subrange(j, j + p.len())[0] == s[j]);
            assert(s[j] == prefix[j]);
        }
    }
    lemma_find_first(s, p, k);
}

/// The old version of a line that ends in `[upgradable from: old]`.
#[verifier::rlimit(30)]
pub proof fn lemma_upgradable_from(prefix: Seq<char>, old: Seq<char>)
    requires
        free_of(prefix, '['),
        free_of(old, ']'),
    ensures
        upgradable_from(prefix + "[upgradable from: "@ + old + "]"@) == old,
        contains(prefix + "[upgradable from: "@ + old + "]"@, "[upgradable from:"@),
{
    let marker = "[upgradable from: "@;
    let short = "[upgradable from:"@;
    let close = "]"@;
    assert(marker =~= short + seq![' '] && short.len() == 17 && short[0] == '[') by {
        reveal_strlit("[upgradable from: ");
        reveal_strlit("[upgradable from:");
    }
    assert(close =~= seq![']']) by {
        reveal_strlit("]");
    }
    let line = prefix + marker + old + close;
    lemma_find_after_prefix(prefix, marker, old + close);
    assert(prefix + marker + (old + close) =~= line);
    let rest = line.subrange((prefix.len() + marker.len()) as int, line.len() as int);
    assert(rest =~= old + close + seq![]);
    lemma_find_after_prefix(old, close, seq![]);
    assert(rest.subrange(0, old.len() as int) =~= old);
    lemma_find_after_prefix(prefix, short, seq![' '] + old + close);
    assert(prefix + short + (seq![' '] + old + close) =~= line);
}

/// An apt line `name/suite new arch [upgradable from: old]` yields the name,
/// the new version and the old version.
pub proof fn apt_line(name: Seq<char>, suite: Seq<char>, new: Seq<char>, arch: Seq<char>, old: Seq<char>, is_aur: bool)
    requires
        name.len() > 0 && no_ws(name) && free_of(name, '/') && free_of(name, '['),
        no_ws(suite) && free_of(suite, '['),
        new.len() > 0 && no_ws(new) && free_of(new, '['),
        arch.len() > 0 && no_ws(arch) && free_of(arch, '['),
        no_ws(old) && free_of(old, ']'),
        !is_noise(name + "/"@ + suite + " "@ + new + " "@ + arch + " [upgradable from: "@ + old + "]"@),
    ensures
        parse_line(PackageManager::Apt, name + "/"@ + suite + " "@ + new + " "@ + arch + " [upgradable from: "@ + old
            + "]"@, is_aur) == Some(entry(name, old, new, false)),
{
    reveal_strlit("/");
    reveal_strlit(" ");
    reveal_strlit(" [upgradable from: ");
    reveal_strlit("[upgradable from: ");
    let line = name + "/"@ + suite + " "@ + new + " "@ + arch + " [upgradable from: "@ + old + "]"@;
    let first = name + seq!['/'] + suite;
    let prefix = first + seq![' '] + new + seq![' '] + arch + seq![' '];
    assert(line =~= prefix + "[upgradable from: "@ + old + "]"@);
    assert(free_of(prefix, '[')) by {
        assert forall|i: int| 0 <= i < prefix.len() implies #[trigger] prefix[i] != '[' by {
            let a = name.len() as int;
            let b = a + 1 + suite.len();
            let c = b + 1 + new.len();
            let d = c + 1 + arch.len();
            if i < a {
                assert(prefix[i] == name[i]);
            } else if a < i < b {
                assert(prefix[i] == suite[i - a - 1]);
            } else if b < i < c {
                assert(prefix[i] == new[i - b - 1]);
            } else if c < i < d {
                assert(prefix[i] == arch[i - c - 1]);
            }
        }
    }
    lemma_upgradable_from(prefix, old);
    assert(no_ws(first)) by {
        assert(!is_ws('/'));
        assert forall|i: int| 0 <= i < first.len() implies !is_ws(#[trigger] first[i]) by {
            if i < name.len() {
                assert(first[i] == name[i]);
            } else if i > name.len() {
                assert(first[i] == suite[i - name.len() - 1]);
            }
        }
    }
    lemma_tokens_word(first);
    lemma_tokens_append_word(first, new);
    let rest = suite + " "@ + new + " "@ + arch + " [upgradable from: "@ + old + "]"@;
    assert(line =~= name + seq!['/'] + rest);
    lemma_split_first(name, '/', rest);
    let t = tokens(line);
    assert(t.len() >= 2 && t[1] == new) by {
        let a = first + seq![' '] + new;
        assert(tokens(a) == seq![first, new]);
        lemma_tokens_prefix(a, line.subrange(a.len() as int, line.len() as int));
        assert(a + line.subrange(a.len() as int, line.len() as int) =~= line);
    }
}

/// Text after a finished word keeps the tokens before it.
pub proof fn lemma_tokens_prefix(a: Seq<char>, b: Seq<char>)
    requires
        b.len() > 0 ==> is_ws(b[0]),
    ensures
        tokens(a).is_prefix_of(tokens(a + b)),
    decreases b.len(),
{
    if b.len() == 0 {
        assert(a + b =~= a);
    } else {
        let b0 = b.drop_last();
        lemma_tokens_prefix(a, b0);
        let s = a + b;
        assert(s.drop_last() =~= a + b0);
        let prev = tokens(a + b0);
        if !is_ws(s.last()) && s.len() >= 2 && !is_ws(s[s.len() - 2]) {
            // the last token grows; it lies after `a`
            assert(b.len() >= 2);
            lemma_tokens_last_after(a, b0);
        }
    }
}

/// Where text starting with whitespace follows `a` and ends inside a word,
/// that word is not one of the tokens of `a`.
pub proof fn lemma_tokens_last_after(a: Seq<char>, b: Seq<char>)
    requires
        b.len() > 0,
        is_ws(b[0]),
        !is_ws(b.last()),
    ensures
        tokens(a + b).len() > tokens(a).len(),
    decreases b.len(),
{
    let s = a + b;
    assert(s.drop_last() =~= a + b.drop_last());
    if b.len() == 1 {
        assert(is_ws(b.last()));
    } else if is_ws(b[b.len() - 2]) {
        lemma_tokens_prefix(a, b.drop_last());
        assert(s[s.len() - 2] == b[b.len() - 2]);
    } else {
        lemma_tokens_last_after(a, b.drop_last());
        assert(s[s.len() - 2] == b[b.len() - 2]);
    }
}

/// A zypper row `a | name | b | version` yields the trimmed name and version.
pub proof fn zypper_line(a: Seq<char>, name: Seq<char>, b: Seq<char>, version: Seq<char>, is_aur: bool)
    requires
        free_of(a, '|') && free_of(name, '|') && free_of(b, '|') && free_of(version, '|'),
        !is_noise(a + "|"@ + name + "|"@ + b + "|"@ + version),
    ensures
        parse_line(PackageManager::Zypper, a + "|"@ + name + "|"@ + b + "|"@ + version, is_aur) == Some(
            entry(trim(name), "unknown"@, trim(version), false),
        ),
{
    reveal_strlit("|");
    let line = a + "|"@ + name + "|"@ + b + "|"@ + version;
    let x = a + seq!['|'] + name;
    let y = x + seq!['|'] + b;
    assert(line =~= y + seq!['|'] + version);
    lemma_split_single(a, '|');
    lemma_split_append_piece(a, '|', name);
    lemma_split_append_piece(x, '|', b);
    lemma_split_append_piece(y, '|', version);
}

/// The last `c` of a text is the one before a tail free of it.
pub proof fn lemma_rfind_before_tail(head: Seq<char>, c: char, tail: Seq<char>)
    requires
        free_of(tail, c),
    ensures
        rfind(head + seq![c] + tail, c) == Some(head.len() as int),
    decreases tail.len(),
{
    let s = head + seq![c] + tail;
    if tail.len() == 0 {
        assert(s =~= head + seq![c]);
    } else {
        lemma_rfind_before_tail(head, c, tail.drop_last());
        assert(s.drop_last() =~= head + seq![c] + tail.drop_last());
        assert(s.last() == tail[tail.len() - 1]);
    }
}

/// An apk line `name-version new ... [upgradable from: old]` yields the name
/// before the last dash of the first word, the second word, and the old version.
pub proof fn apk_line(
    name: Seq<char>,
    version: Seq<char>,
    new: Seq<char>,
    middle: Seq<char>,
    old: Seq<char>,
    is_aur: bool,
)
    requires
        no_ws(name) && free_of(name, '['),
        no_ws(version) && free_of(version, '-') && free_of(version, '['),
        new.len() > 0 && no_ws(new) && free_of(new, '['),
        free_of(middle, '['),
        free_of(old, ']'),
        !is_noise(name + "-"@ + version + " "@ + new + " "@ + middle + "[upgradable from: "@ + old + "]"@),
    ensures
        parse_line(PackageManager::Apk, name + "-"@ + version + " "@ + new + " "@ + middle + "[upgradable from: "@
            + old + "]"@, is_aur) == Some(entry(name, old, new, false)),
{
    reveal_strlit("-");
    reveal_strlit(" ");
    let line = name + "-"@ + version + " "@ + new + " "@ + middle + "[upgradable from: "@ + old + "]"@;
    let first = name + seq!['-'] + version;
    let prefix = first + seq![' '] + new + seq![' '] + middle;
    assert(line =~= prefix + "[upgradable from: "@ + old + "]"@);
    assert(free_of(prefix, '[')) by {
        assert forall|i: int| 0 <= i < prefix.len() implies #[trigger] prefix[i] != '[' by {
            let a = name.len() as int;
            let b = a + 1 + version.len();
            let c = b + 1 + new.len();
            if i < a {
                assert(prefix[i] == name[i]);
            } else if a < i < b {
                assert(prefix[i] == version[i - a - 1]);
            } else if b < i < c {
                assert(prefix[i] == new[i - b - 1]);
            } else if c < i {
                assert(prefix[i] == middle[i - c - 1]);
            }
        }
    }
    lemma_upgradable_from(prefix, old);
    assert(no_ws(first)) by {
        assert(!is_ws('-'));
        assert forall|i: int| 0 <= i < first.len() implies !is_ws(#[trigger] first[i]) by {
            if i < name.len() {
                assert(first[i] == name[i]);
            } else if i > name.len() {
                assert(first[i] == version[i - name.len() - 1]);
            }
        }
    }
    lemma_tokens_word(first);
    lemma_tokens_append_word(first, new);
    lemma_rfind_before_tail(name, '-', version);
    assert(first.subrange(0, name.len() as int) =~= name);
    let a = first + seq![' '] + new;
    let b = line.subrange(a.len() as int, line.len() as int);
    assert(a + b =~= line);
    assert(b[0] == ' ');
    lemma_tokens_prefix(a, b);
    assert(tokens(a) == seq![first, new]);
}

/// A dry build's output that says the system is up to date (or already
/// built) yields no entries, whatever counts it also reports.
pub proof fn up_to_date_output_yields_nothing(output: Seq<char>)
    requires
        says_up_to_date(output),
    ensures
        rebuild_summary(output).len() == 0,
{
}

} // verus!
