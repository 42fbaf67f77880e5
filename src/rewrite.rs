//! The rewrite of an argument vector before it is forwarded: host paths in the
//! `source=` options of bind mounts, and in arguments holding a backslash, are
//! replaced by the guest's form of the same path. Which paths are sent to the
//! guest's converter is decided here; the conversions come back as arguments.
use vstd::prelude::*;
use crate::command::{
    clone_strings, output_in_wsl, texts, to_strings, Command, Config, IoMode, Outcome,
};
use crate::options::{fixed_options, is_source, lemma_no_source_unchanged, split_commas, rewrite_sources, source_paths, sources_of};

verus! {

/// Whether `c` is whitespace: Unicode's White_Space property, the set that
/// `char::is_whitespace` and `str::trim` go by.
pub open spec fn is_ws(c: char) -> bool {
    ||| c == ' '
    ||| ('\t' <= c <= '\r')
    ||| c == '\u{85}'
    ||| c == '\u{a0}'
    ||| c == '\u{1680}'
    ||| ('\u{2000}' <= c <= '\u{200a}')
    ||| c == '\u{2028}'
    ||| c == '\u{2029}'
    ||| c == '\u{202f}'
    ||| c == '\u{205f}'
    ||| c == '\u{3000}'
}

/// `s` without its leading whitespace.
pub open spec fn trim_start_of(s: Seq<char>) -> Seq<char>
    decreases s.len(),
{
    if s.len() > 0 && is_ws(s[0]) {
        trim_start_of(s.drop_first())
    } else {
        s
    }
}

/// `s` without its trailing whitespace.
pub open spec fn trim_end_of(s: Seq<char>) -> Seq<char>
    decreases s.len(),
{
    if s.len() > 0 && is_ws(s.last()) {
        trim_end_of(s.drop_last())
    } else {
        s
    }
}

/// `s` without its leading and trailing whitespace.
pub open spec fn trim_of(s: Seq<char>) -> Seq<char> {
    trim_end_of(trim_start_of(s))
}

fn is_whitespace(c: char) -> (r: bool)
    ensures
        r == is_ws(c),
{
    c == ' ' || ('\t' <= c && c <= '\r') || c == '\u{85}' || c == '\u{a0}' || c == '\u{1680}' || (
    '\u{2000}' <= c && c <= '\u{200a}') || c == '\u{2028}' || c == '\u{2029}' || c == '\u{202f}'
        || c == '\u{205f}' || c == '\u{3000}'
}

/// `s` without its leading and trailing whitespace.
pub fn trim(s: &str) -> (r: String)
    ensures
        r@ == trim_of(s@),
{
    let n = s.unicode_len();
    let mut i: usize = 0;
    assert(s@.subrange(0, n as int) =~= s@);
    while i < n && is_whitespace(s.get_char(i))
        invariant
            n == s@.len(),
            i <= n,
            trim_start_of(s@) == trim_start_of(s@.subrange(i as int, n as int)),
        decreases n - i,
    {
        assert(s@.subrange(i as int, n as int).drop_first() =~= s@.subrange(i + 1, n as int));
        i = i + 1;
    }
    let ghost front = s@.subrange(i as int, n as int);
    assert(trim_start_of(front) == front);
    let mut j: usize = n;
    while j > i && is_whitespace(s.get_char(j - 1))
        invariant
            n == s@.len(),
            i <= j <= n,
            front == s@.subrange(i as int, n as int),
            trim_end_of(front) == trim_end_of(s@.subrange(i as int, j as int)),
        decreases j,
    {
        assert(s@.subrange(i as int, j as int).drop_last() =~= s@.subrange(i as int, j - 1));
        j = j - 1;
    }
    String::from_str(s.substring_char(i, j))
}

/// Text without whitespace at either end is its own trimmed form.
pub proof fn lemma_trim_plain(s: Seq<char>)
    requires
        s.len() > 0,
        !is_ws(s[0]),
        !is_ws(s.last()),
    ensures
        trim_of(s) == s,
{
}

/// Whether `ts[i]` is the value of a bind-mount flag, over trimmed arguments
/// `ts`: it follows the flag, and the flag is not itself the value of an
/// earlier flag.
pub open spec fn follows_flag(ts: Seq<Seq<char>>, i: int) -> bool
    decreases i,
{
    if i <= 0 {
        false
    } else {
        !follows_flag(ts, i - 1) && ts[i - 1] == "--mount"@
    }
}

/// The arguments with surrounding whitespace removed.
pub open spec fn trimmed_all(args: Seq<Seq<char>>) -> Seq<Seq<char>> {
    args.map_values(|a: Seq<char>| trim_of(a))
}

/// Whether `args[i]` is the value of a bind-mount flag; the flag is recognised
/// with surrounding whitespace.
pub open spec fn after_mount_flag(args: Seq<Seq<char>>, i: int) -> bool {
    follows_flag(trimmed_all(args), i)
}

/// The source paths of the bind mounts among `args[..n]`, in order.
pub open spec fn sources_before(args: Seq<Seq<char>>, n: int) -> Seq<Seq<char>>
    decreases n,
{
    if n <= 0 {
        Seq::<Seq<char>>::empty()
    } else {
        let pre = sources_before(args, n - 1);
        if after_mount_flag(args, n - 1) {
            pre + sources_of(args[n - 1])
        } else {
            pre
        }
    }
}

/// The source paths of all bind mounts in `args`, in order.
pub open spec fn bind_sources(args: Seq<Seq<char>>) -> Seq<Seq<char>> {
    sources_before(args, args.len() as int)
}

/// `args` with the source paths of its bind mounts replaced, in order, by `ts`.
pub open spec fn fixed_binds(args: Seq<Seq<char>>, ts: Seq<Seq<char>>) -> Seq<Seq<char>> {
    Seq::new(
        args.len(),
        |i: int|
            if after_mount_flag(args, i) {
                fixed_options(args[i], ts, sources_before(args, i).len() as int)
            } else {
                args[i]
            },
    )
}

/// Whether the subcommand is the one that creates a container.
pub open spec fn is_create(args: Seq<Seq<char>>) -> bool {
    args.len() > 0 && args[0] == "create"@
}

/// Whether arguments with a backslash are converted: for every subcommand but `exec`.
pub open spec fn loose_applies(args: Seq<Seq<char>>) -> bool {
    args.len() > 0 && args[0] != "exec"@
}

/// The paths that must be converted before `args` is forwarded: the bind-mount
/// sources of a `create` command; none for any other.
pub open spec fn required_paths(args: Seq<Seq<char>>) -> Seq<Seq<char>> {
    if is_create(args) {
        bind_sources(args)
    } else {
        Seq::<Seq<char>>::empty()
    }
}

/// `args` after the bind-mount pass.
pub open spec fn mounts_fixed(args: Seq<Seq<char>>, ts: Seq<Seq<char>>) -> Seq<Seq<char>> {
    if is_create(args) {
        fixed_binds(args, ts)
    } else {
        args
    }
}

/// Whether the argument holds a backslash, the host's path separator.
pub open spec fn has_backslash(a: Seq<char>) -> bool {
    a.contains('\\')
}

/// The argument `a` replaced by its conversion `t`, where it holds a backslash
/// and the conversion succeeded.
pub open spec fn fixed_loose(a: Seq<char>, t: Option<Seq<char>>) -> Seq<char> {
    if has_backslash(a) && t is Some {
        t->Some_0
    } else {
        a
    }
}

/// The texts of optional strings.
pub open spec fn opt_text(o: Option<String>) -> Option<Seq<char>> {
    match o {
        Some(s) => Some(s@),
        None => None,
    }
}

pub open spec fn opt_texts(v: Seq<Option<String>>) -> Seq<Option<Seq<char>>> {
    v.map_values(|o: Option<String>| opt_text(o))
}

/// `args` rewritten: bind-mount sources replaced by `ts`, then, unless the
/// subcommand is `exec`, each argument with a backslash replaced by its
/// conversion in `loose`, where there is one.
pub open spec fn rewritten(
    args: Seq<Seq<char>>,
    ts: Seq<Seq<char>>,
    loose: Seq<Option<Seq<char>>>,
) -> Seq<Seq<char>> {
    let m = mounts_fixed(args, ts);
    if loose_applies(args) {
        Seq::new(m.len(), |i: int| fixed_loose(m[i], loose[i]))
    } else {
        m
    }
}

/// Later prefixes of the arguments hold at least as many bind-mount sources.
pub proof fn lemma_sources_before_grow(args: Seq<Seq<char>>, j: int, k: int)
    requires
        0 <= j <= k,
    ensures
        sources_before(args, j).len() <= sources_before(args, k).len(),
    decreases k - j,
{
    if j < k {
        lemma_sources_before_grow(args, j, k - 1);
    }
}

fn trim_all(args: &Vec<String>) -> (r: Vec<String>)
    ensures
        texts(r@) == trimmed_all(texts(args@)),
{
    let mut r: Vec<String> = Vec::new();
    let mut i: usize = 0;
    while i < args.len()
        invariant
            i <= args@.len(),
            r@.len() == i,
            forall|j: int| 0 <= j < i ==> #[trigger] r@[j]@ == trim_of(args@[j]@),
        decreases args@.len() - i,
    {
        r.push(trim(args[i].as_str()));
        i = i + 1;
    }
    assert(texts(r@) =~= trimmed_all(texts(args@)));
    r
}

/// For each of the trimmed arguments `trimmed`, whether it is the value of a
/// bind-mount flag.
pub fn mount_value_positions(trimmed: &Vec<String>) -> (r: Vec<bool>)
    ensures
        r@.len() == trimmed@.len(),
        forall|i: int| 0 <= i < r@.len() ==> #[trigger] r@[i] == follows_flag(texts(trimmed@), i),
{
    let ghost ts = texts(trimmed@);
    let mut r: Vec<bool> = Vec::new();
    let mut pending = false;
    let mut i: usize = 0;
    while i < trimmed.len()
        invariant
            ts == texts(trimmed@),
            i <= trimmed@.len(),
            r@.len() == i,
            pending == follows_flag(ts, i as int),
            forall|j: int| 0 <= j < i ==> #[trigger] r@[j] == follows_flag(ts, j),
        decreases trimmed@.len() - i,
    {
        r.push(pending);
        assert(trimmed@[i as int]@ == ts[i as int]);
        if pending {
            pending = false;
        } else {
            pending = is_word(&trimmed[i], "--mount");
        }
        i = i + 1;
    }
    r
}

fn is_word(a: &String, w: &str) -> (r: bool)
    ensures
        r == (a@ == w@),
{
    *a == String::from_str(w)
}

/// Whether `s` holds a backslash.
pub fn contains_backslash(s: &str) -> (r: bool)
    ensures
        r == has_backslash(s@),
{
    let n = s.unicode_len();
    let mut i: usize = 0;
    while i < n
        invariant
            n == s@.len(),
            i <= n,
            forall|j: int| 0 <= j < i ==> s@[j] != '\\',
        decreases n - i,
    {
        if s.get_char(i) == '\\' {
            return true;
        }
        i = i + 1;
    }
    false
}

fn bind_source_paths(args: &Vec<String>) -> (r: Vec<String>)
    ensures
        texts(r@) == bind_sources(texts(args@)),
{
    let ghost a = texts(args@);
    let trimmed = trim_all(args);
    let positions = mount_value_positions(&trimmed);
    assert(texts(trimmed@).len() == trimmed@.len() && trimmed_all(a).len() == a.len());
    let mut r: Vec<String> = Vec::new();
    let mut i: usize = 0;
    assert(texts(r@) =~= Seq::<Seq<char>>::empty());
    while i < args.len()
        invariant
            a == texts(args@),
            i <= args@.len(),
            positions@.len() == a.len(),
            forall|j: int| 0 <= j < a.len() ==> #[trigger] positions@[j] == after_mount_flag(a, j),
            texts(r@) == sources_before(a, i as int),
        decreases args@.len() - i,
    {
        let arg = args[i].as_str();
        assert(arg@ == a[i as int]);
        if positions[i] {
            let mut ps = source_paths(arg);
            let ghost old_r = r@;
            let ghost old_ps = ps@;
            r.append(&mut ps);
            assert(texts(r@) =~= texts(old_r) + texts(old_ps));
        }
        i = i + 1;
    }
    r
}

/// `args` with the `source=` paths of each bind-mount value replaced, in order,
/// by `translated`; every other argument and option is kept as it was.
pub fn fix_bind_mount_path(args: &mut Vec<String>, translated: &Vec<String>)
    requires
        translated@.len() == bind_sources(texts(old(args)@)).len(),
    ensures
        texts(final(args)@) == fixed_binds(texts(old(args)@), texts(translated@)),
{
    let ghost a = texts(args@);
    let ghost ts = texts(translated@);
    let ghost want = fixed_binds(a, ts);
    let trimmed = trim_all(args);
    let positions = mount_value_positions(&trimmed);
    assert(texts(trimmed@).len() == trimmed@.len() && trimmed_all(a).len() == a.len());
    let mut out: Vec<String> = Vec::new();
    let mut used: usize = 0;
    let mut i: usize = 0;
    while i < args.len()
        invariant
            a == texts(args@),
            ts == texts(translated@),
            want == fixed_binds(a, ts),
            translated@.len() == bind_sources(a).len(),
            i <= args@.len(),
            positions@.len() == a.len(),
            forall|j: int| 0 <= j < a.len() ==> #[trigger] positions@[j] == after_mount_flag(a, j),
            used == sources_before(a, i as int).len(),
            texts(out@) =~= want.take(i as int),
        decreases args@.len() - i,
    {
        let arg = args[i].as_str();
        assert(arg@ == a[i as int]);
        let ghost old_out = out@;
        if positions[i] {
            proof {
                lemma_sources_before_grow(a, i + 1, a.len() as int);
            }
            let n = source_paths(arg).len();
            assert(sources_before(a, i + 1) == sources_before(a, i as int) + sources_of(a[i as int]));
            assert(used + n <= translated.len());
            out.push(rewrite_sources(arg, translated, used));
            used = used + n;
        } else {
            out.push(String::from_str(arg));
        }
        assert(texts(out@) =~= texts(old_out).push(want[i as int]));
        i = i + 1;
    }
    assert(want.take(i as int) =~= want);
    *args = out;
}

/// The argument with a backslash replaced by its conversion, where the
/// conversion succeeded; any other argument is kept as it was.
pub fn fix_arg_containing_backslash(arg: &mut String, translated: Option<String>)
    ensures
        final(arg)@ == fixed_loose(old(arg)@, opt_text(translated)),
{
    if contains_backslash(arg.as_str()) {
        match translated {
            Some(t) => {
                *arg = t;
            },
            None => {},
        }
    }
}

fn clone_opt(o: &Option<String>) -> (r: Option<String>)
    ensures
        opt_text(r) == opt_text(*o),
{
    match o {
        Some(t) => Some(String::from_str(t.as_str())),
        None => None,
    }
}

/// The paths that must be converted before `args` is forwarded; a conversion
/// that fails makes the command fail.
pub fn mount_sources(args: &Vec<String>) -> (r: Vec<String>)
    ensures
        texts(r@) == required_paths(texts(args@)),
{
    if args.len() > 0 && is_word(&args[0], "create") {
        bind_source_paths(args)
    } else {
        let r: Vec<String> = Vec::new();
        assert(texts(r@) =~= Seq::<Seq<char>>::empty());
        r
    }
}

/// For each argument, once the bind mounts are rewritten with `translated`,
/// the text to send to the converter: the argument itself where it holds a
/// backslash and the subcommand is not `exec`; `None` elsewhere. A conversion
/// that fails there leaves the argument as it was.
pub fn loose_candidates(args: &Vec<String>, translated: &Vec<String>) -> (r: Vec<Option<String>>)
    requires
        translated@.len() == required_paths(texts(args@)).len(),
    ensures
        r@.len() == args@.len(),
        forall|i: int|
            0 <= i < r@.len() ==> opt_text(#[trigger] r@[i]) == (if loose_applies(texts(args@))
                && has_backslash(mounts_fixed(texts(args@), texts(translated@))[i]) {
                Some(mounts_fixed(texts(args@), texts(translated@))[i])
            } else {
                None
            }),
{
    let ghost a = texts(args@);
    let mut m = clone_strings(args);
    let applies = args.len() > 0 && !is_word(&args[0], "exec");
    if args.len() > 0 && is_word(&args[0], "create") {
        fix_bind_mount_path(&mut m, translated);
    }
    let ghost mt = texts(m@);
    assert(mt == mounts_fixed(a, texts(translated@)));
    let mut r: Vec<Option<String>> = Vec::new();
    let mut i: usize = 0;
    while i < m.len()
        invariant
            mt == texts(m@),
            mt.len() == a.len(),
            applies == loose_applies(a),
            i <= m@.len(),
            r@.len() == i,
            forall|j: int|
                0 <= j < i ==> opt_text(#[trigger] r@[j]) == (if applies && has_backslash(mt[j]) {
                    Some(mt[j])
                } else {
                    None
                }),
        decreases m@.len() - i,
    {
        if applies && contains_backslash(m[i].as_str()) {
            r.push(Some(String::from_str(m[i].as_str())));
        } else {
            r.push(None);
        }
        i = i + 1;
    }
    r
}

/// The argument vector rewritten before it is forwarded: for `create`, the
/// bind-mount sources replaced by `translated`, in order; then, unless the
/// subcommand is `exec`, each argument holding a backslash replaced by its
/// conversion in `loose`, where that conversion succeeded. Nothing is added,
/// removed or reordered.
pub fn modify_args(args: &mut Vec<String>, translated: &Vec<String>, loose: &Vec<Option<String>>)
    requires
        translated@.len() == required_paths(texts(old(args)@)).len(),
        loose@.len() == old(args)@.len(),
    ensures
        texts(final(args)@) == rewritten(texts(old(args)@), texts(translated@), opt_texts(loose@)),
{
    let ghost a = texts(args@);
    let ghost lt = opt_texts(loose@);
    if args.len() == 0 {
        return;
    }
    let applies = !is_word(&args[0], "exec");
    if is_word(&args[0], "create") {
        fix_bind_mount_path(args, translated);
    }
    let ghost mt = texts(args@);
    assert(mt == mounts_fixed(a, texts(translated@)));
    if !applies {
        return;
    }
    let ghost want = rewritten(a, texts(translated@), lt);
    let mut out: Vec<String> = Vec::new();
    let mut i: usize = 0;
    while i < args.len()
        invariant
            mt == texts(args@),
            mt.len() == a.len(),
            loose@.len() == a.len(),
            lt == opt_texts(loose@),
            loose_applies(a),
            want == rewritten(a, texts(translated@), lt),
            mt == mounts_fixed(a, texts(translated@)),
            i <= args@.len(),
            texts(out@) =~= want.take(i as int),
        decreases args@.len() - i,
    {
        let mut s = String::from_str(args[i].as_str());
        fix_arg_containing_backslash(&mut s, clone_opt(&loose[i]));
        let ghost old_out = out@;
        out.push(s);
        assert(texts(out@) =~= texts(old_out).push(want[i as int]));
        i = i + 1;
    }
    assert(want.take(i as int) =~= want);
    *args = out;
}

/// The rewrite of `modify_args` where `translated` holds one path for each
/// required conversion and `loose` one entry for each argument; otherwise the
/// arguments are left as they were and the result is `false`.
pub fn try_modify_args(
    args: &mut Vec<String>,
    translated: &Vec<String>,
    loose: &Vec<Option<String>>,
) -> (r: bool)
    ensures
        r == (translated@.len() == required_paths(texts(old(args)@)).len() && loose@.len()
            == old(args)@.len()),
        r ==> texts(final(args)@) == rewritten(
            texts(old(args)@),
            texts(translated@),
            opt_texts(loose@),
        ),
        !r ==> final(args)@ == old(args)@,
{
    let needed = mount_sources(args).len();
    if translated.len() == needed && loose.len() == args.len() {
        modify_args(args, translated, loose);
        true
    } else {
        false
    }
}

/// The command that converts the host path `from` into the guest's form.
pub fn convert_path(cfg: &Config, from: &str) -> (r: Command)
    ensures
        r@.0 == crate::command::guest_prefix(cfg) + seq!["wslpath"@, "-u"@, from@],
        r@.1 == IoMode::Capture,
{
    let args = to_strings(&["wslpath", "-u", from]);
    assert(texts(args@) =~= seq!["wslpath"@, "-u"@, from@]);
    output_in_wsl(cfg, &args)
}

/// The converted path, from what the converter printed: its output trimmed
/// when it succeeded, nothing otherwise.
pub fn converted_path(outcome: Outcome, output: &str) -> (r: Option<String>)
    ensures
        opt_text(r) == (if outcome is Success {
            Some(trim_of(output@))
        } else {
            None
        }),
{
    match outcome {
        Outcome::Success => Some(trim(output)),
        _ => None,
    }
}

/// A vector whose subcommand is not `create` is forwarded exactly as it came,
/// whenever the backslash pass has nothing to do: the subcommand is `exec`, or
/// no argument holds a backslash.
pub proof fn lemma_rewrite_identity(
    args: Seq<Seq<char>>,
    ts: Seq<Seq<char>>,
    loose: Seq<Option<Seq<char>>>,
)
    requires
        !is_create(args),
        !loose_applies(args) || forall|i: int| 0 <= i < args.len() ==> !has_backslash(
            #[trigger] args[i],
        ),
    ensures
        rewritten(args, ts, loose) == args,
{
    if loose_applies(args) {
        assert(rewritten(args, ts, loose) =~= args);
    }
}

/// The value of a bind-mount flag with no `source=` option is forwarded as it
/// came, whatever the conversions.
pub proof fn lemma_mount_without_source_kept(args: Seq<Seq<char>>, ts: Seq<Seq<char>>, i: int)
    requires
        0 <= i < args.len(),
        forall|k: int|
            0 <= k < split_commas(args[i]).len() ==> !is_source(
                #[trigger] split_commas(args[i])[k],
            ),
    ensures
        fixed_binds(args, ts)[i] == args[i],
{
    lemma_no_source_unchanged(args[i], ts, sources_before(args, i).len() as int);
}

/// Neither part holding `ch`, their concatenation does not hold it either.
pub proof fn lemma_concat_lacks(x: Seq<char>, y: Seq<char>, ch: char)
    requires
        !x.contains(ch),
        !y.contains(ch),
    ensures
        !(x + y).contains(ch),
{
    if (x + y).contains(ch) {
        let k = choose|k: int| 0 <= k < (x + y).len() && (x + y)[k] == ch;
        if k < x.len() {
            assert(x[k] == ch);
        } else {
            assert(y[k - x.len()] == ch);
        }
    }
}

/// `create --mount a,source=p,c`: the one path sent to the converter is `p`,
/// and with its conversion `t` the vector forwarded is
/// `create --mount a,source=t,c`; the other options and their order are kept,
/// whatever the backslash pass is offered.
pub proof fn lemma_create_mount_source(
    a: Seq<char>,
    p: Seq<char>,
    c: Seq<char>,
    t: Seq<char>,
    loose: Seq<Option<Seq<char>>>,
)
    requires
        !a.contains(','),
        !p.contains(','),
        !c.contains(','),
        !is_source(a),
        !is_source(c),
        !a.contains('\\'),
        !t.contains('\\'),
        !c.contains('\\'),
    ensures
        required_paths(
            seq!["create"@, "--mount"@, a + seq![','] + ("source="@ + p) + seq![','] + c],
        ) == seq![p],
        rewritten(
            seq!["create"@, "--mount"@, a + seq![','] + ("source="@ + p) + seq![','] + c],
            seq![t],
            loose,
        ) == seq!["create"@, "--mount"@, a + seq![','] + ("source="@ + t) + seq![','] + c],
{
    reveal_strlit("create");
    reveal_strlit("--mount");
    reveal_strlit("exec");
    reveal_strlit("source=");
    let b = "source="@ + p;
    let spec = a + seq![','] + b + seq![','] + c;
    let args = seq!["create"@, "--mount"@, spec];
    let out = a + seq![','] + ("source="@ + t) + seq![','] + c;
    lemma_trim_plain("create"@);
    lemma_trim_plain("--mount"@);
    let tr = trimmed_all(args);
    assert(tr[0] == "create"@ && tr[1] == "--mount"@);
    assert("create"@ != "--mount"@) by {
        assert("create"@.len() != "--mount"@.len());
    }
    assert(!follows_flag(tr, 0));
    assert(!follows_flag(tr, 1));
    assert(follows_flag(tr, 2));
    assert(!after_mount_flag(args, 0) && !after_mount_flag(args, 1) && after_mount_flag(args, 2));
    assert(sources_before(args, 0) == Seq::<Seq<char>>::empty());
    assert(sources_before(args, 1) == sources_before(args, 0));
    assert(sources_before(args, 1) == Seq::<Seq<char>>::empty());
    assert(sources_before(args, 2) == Seq::<Seq<char>>::empty());
    // The sources of the specification.
    assert(!b.contains(',')) by {
        lemma_concat_lacks("source="@, p, ',');
    }
    crate::options::lemma_split_three(a, b, c);
    let ps = seq![a, b, c];
    assert(b.take(7) =~= "source="@);
    assert(b.skip(7) =~= p);
    assert(ps.drop_last() =~= seq![a, b]);
    assert(seq![a, b].drop_last() =~= seq![a]);
    assert(seq![a].drop_last() =~= Seq::<Seq<char>>::empty());
    assert(seq![a].last() == a);
    assert(seq![a, b].last() == b);
    assert(ps.last() == c);
    assert(crate::options::option_sources(Seq::<Seq<char>>::empty()) == Seq::<Seq<char>>::empty());
    assert(crate::options::option_sources(seq![a]) == Seq::<Seq<char>>::empty());
    assert(crate::options::option_sources(seq![a, b]) == seq![p]);
    assert(crate::options::option_sources(ps) == seq![p]);
    assert(sources_before(args, 3) =~= seq![p]);
    // The bind-mount pass.
    crate::options::lemma_source_between(a, p, c, seq![t], 0);
    let m = mounts_fixed(args, seq![t]);
    assert(m =~= seq!["create"@, "--mount"@, out]);
    // The backslash pass finds nothing.
    assert("create"@ != "exec"@) by {
        assert("create"@.len() != "exec"@.len());
    }
    assert(!"source="@.contains('\\'));
    assert(!seq![','].contains('\\'));
    lemma_concat_lacks(a, seq![','], '\\');
    lemma_concat_lacks(a + seq![','], "source="@, '\\');
    lemma_concat_lacks(a + seq![','] + "source="@, t, '\\');
    assert(a + seq![','] + "source="@ + t =~= a + seq![','] + ("source="@ + t));
    lemma_concat_lacks(a + seq![','] + ("source="@ + t), seq![','], '\\');
    lemma_concat_lacks(a + seq![','] + ("source="@ + t) + seq![','], c, '\\');
    assert(!has_backslash(out));
    assert(!has_backslash("create"@));
    assert(!has_backslash("--mount"@));
    assert(rewritten(args, seq![t], loose) =~= m);
}

} // verus!
