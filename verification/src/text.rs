//! String helpers: command-line argument lists and decimal numbers.

use vstd::prelude::*;
use vstd::string::StringExecFns;
use crate::json::{strs, lemma_strs_push, opt_view};

verus! {

/// The decimal digit `d` (`d < 10`).
pub open spec fn digit_char(d: nat) -> char {
    if d == 0 { '0' } else if d == 1 { '1' } else if d == 2 { '2' } else if d == 3 { '3' }
    else if d == 4 { '4' } else if d == 5 { '5' } else if d == 6 { '6' } else if d == 7 { '7' }
    else if d == 8 { '8' } else { '9' }
}

/// The decimal text of `n`, as `u64::to_string` writes it.
pub open spec fn decimal(n: nat) -> Seq<char>
    decreases n,
{
    if n < 10 {
        seq![digit_char(n)]
    } else {
        decimal(n / 10).push(digit_char(n % 10))
    }
}

/// `key=value`, as `format!("{key}={value}")` writes it.
pub open spec fn key_value(key: Seq<char>, value: Seq<char>) -> Seq<char> {
    key + "="@ + value
}

/// The `--env key=value` pairs for every environment entry, in order.
pub open spec fn env_args(env: Seq<(String, String)>) -> Seq<Seq<char>>
    decreases env.len(),
{
    if env.len() == 0 {
        Seq::empty()
    } else {
        env_args(env.drop_last()) + seq!["--env"@, key_value(env.last().0@, env.last().1@)]
    }
}

/// `flag value` when the option is set, nothing otherwise.
pub open spec fn opt_flag(flag: Seq<char>, value: Option<Seq<char>>) -> Seq<Seq<char>> {
    match value {
        Some(v) => seq![flag, v],
        None => Seq::empty(),
    }
}

/// `--focus`, `--no-focus` or nothing.
pub open spec fn focus_args(focus: Option<bool>) -> Seq<Seq<char>> {
    match focus {
        Some(true) => seq!["--focus"@],
        Some(false) => seq!["--no-focus"@],
        None => Seq::empty(),
    }
}

/// `flag` when `on` holds, nothing otherwise.
pub open spec fn switch(flag: Seq<char>, on: bool) -> Seq<Seq<char>> {
    if on { seq![flag] } else { Seq::empty() }
}

/// `args` hands `value` to `flag`: when the option is set, the flag stands
/// somewhere in `args` with the value right after it.
pub open spec fn passes_flag(args: Seq<Seq<char>>, flag: Seq<char>, value: Option<Seq<char>>) -> bool {
    value matches Some(v) ==> exists|i: int| 0 <= i < args.len() - 1 && #[trigger] args[i] == flag && args[i + 1] == v
}

/// `args` carries a focus choice: `--focus` when focus is asked for, and
/// `--no-focus` when it is refused.
pub open spec fn passes_focus(args: Seq<Seq<char>>, focus: Option<bool>) -> bool {
    &&& focus == Some(true) ==> args.contains("--focus"@)
    &&& focus == Some(false) ==> args.contains("--no-focus"@)
}

/// `args` holds `flag` when `on` holds.
pub open spec fn passes_switch(args: Seq<Seq<char>>, flag: Seq<char>, on: bool) -> bool {
    on ==> args.contains(flag)
}

/// An optional flag at the end of an argument list hands its value to the
/// flag.
pub proof fn lemma_flag_passed_at_end(pre: Seq<Seq<char>>, flag: Seq<char>, value: Option<Seq<char>>)
    ensures
        passes_flag(pre + opt_flag(flag, value), flag, value),
{
    if let Some(v) = value {
        let args = pre + opt_flag(flag, value);
        assert(args[pre.len() as int] == flag);
        assert(args[pre.len() as int + 1] == v);
    }
}

/// The focus arguments at the end of an argument list carry the focus
/// choice.
pub proof fn lemma_focus_passed_at_end(pre: Seq<Seq<char>>, focus: Option<bool>)
    ensures
        passes_focus(pre + focus_args(focus), focus),
{
    let args = pre + focus_args(focus);
    if focus == Some(true) {
        assert(args[pre.len() as int] == "--focus"@);
    } else if focus == Some(false) {
        assert(args[pre.len() as int] == "--no-focus"@);
    }
}

/// A switch at the end of an argument list is there when it is on.
pub proof fn lemma_switch_passed_at_end(pre: Seq<Seq<char>>, flag: Seq<char>, on: bool)
    ensures
        passes_switch(pre + switch(flag, on), flag, on),
{
    if on {
        assert((pre + switch(flag, on))[pre.len() as int] == flag);
    }
}

/// Whatever an argument list holds it still holds when more arguments
/// follow.
proof fn lemma_contains_extend(args: Seq<Seq<char>>, more: Seq<Seq<char>>)
    ensures
        forall|a: Seq<char>| args.contains(a) ==> #[trigger] (args + more).contains(a),
{
    assert forall|a: Seq<char>| args.contains(a) implies #[trigger] (args + more).contains(a) by {
        let i = choose|i: int| 0 <= i < args.len() && args[i] == a;
        assert((args + more)[i] == a);
    }
}

/// A flag handed its value stays handed it when more arguments follow.
pub proof fn lemma_passes_flag_extend(args: Seq<Seq<char>>, more: Seq<Seq<char>>, flag: Seq<char>, value: Option<Seq<char>>)
    requires
        passes_flag(args, flag, value),
    ensures
        passes_flag(args + more, flag, value),
{
    if let Some(v) = value {
        let i = choose|i: int| 0 <= i < args.len() - 1 && #[trigger] args[i] == flag && args[i + 1] == v;
        assert((args + more)[i] == flag);
        assert((args + more)[i + 1] == v);
    }
}

/// A flag handed its value stays handed it when arguments come before.
pub proof fn lemma_passes_flag_prepend(pre: Seq<Seq<char>>, args: Seq<Seq<char>>, flag: Seq<char>, value: Option<Seq<char>>)
    requires
        passes_flag(args, flag, value),
    ensures
        passes_flag(pre + args, flag, value),
{
    if let Some(v) = value {
        let i = choose|i: int| 0 <= i < args.len() - 1 && #[trigger] args[i] == flag && args[i + 1] == v;
        assert((pre + args)[pre.len() + i] == flag);
        assert((pre + args)[pre.len() + i + 1] == v);
    }
}

/// A focus choice stays carried when more arguments follow.
pub proof fn lemma_passes_focus_extend(args: Seq<Seq<char>>, more: Seq<Seq<char>>, focus: Option<bool>)
    requires
        passes_focus(args, focus),
    ensures
        passes_focus(args + more, focus),
{
    lemma_contains_extend(args, more);
}

/// A switch that is there stays there when more arguments follow.
pub proof fn lemma_passes_switch_extend(args: Seq<Seq<char>>, more: Seq<Seq<char>>, flag: Seq<char>, on: bool)
    requires
        passes_switch(args, flag, on),
    ensures
        passes_switch(args + more, flag, on),
{
    lemma_contains_extend(args, more);
}

fn digit_str(d: u64) -> (s: &'static str)
    requires
        d < 10,
    ensures
        s@ == seq![digit_char(d as nat)],
{
    proof {
        reveal_strlit("0");
        reveal_strlit("1");
        reveal_strlit("2");
        reveal_strlit("3");
        reveal_strlit("4");
        reveal_strlit("5");
        reveal_strlit("6");
        reveal_strlit("7");
        reveal_strlit("8");
        reveal_strlit("9");
    }
    if d == 0 { "0" } else if d == 1 { "1" } else if d == 2 { "2" } else if d == 3 { "3" }
    else if d == 4 { "4" } else if d == 5 { "5" } else if d == 6 { "6" } else if d == 7 { "7" }
    else if d == 8 { "8" } else { "9" }
}

/// The decimal text of `n`.
pub fn u64_to_decimal(n: u64) -> (s: String)
    ensures
        s@ == decimal(n as nat),
    decreases n,
{
    if n < 10 {
        digit_str(n).to_owned()
    } else {
        let mut s = u64_to_decimal(n / 10);
        s.append(digit_str(n % 10));
        s
    }
}

/// `key=value`.
pub fn join_key_value(key: &str, value: &str) -> (s: String)
    ensures
        s@ == key_value(key@, value@),
{
    let mut s = key.to_owned();
    s.append("=");
    s.append(value);
    s
}

/// Appends one argument.
pub fn push_arg(args: &mut Vec<String>, arg: String)
    ensures
        strs(final(args)@) == strs(old(args)@).push(arg@),
{
    proof {
        lemma_strs_push(args@, arg);
    }
    args.push(arg);
}

/// Appends one literal argument.
pub fn push_str(args: &mut Vec<String>, arg: &str)
    ensures
        strs(final(args)@) == strs(old(args)@).push(arg@),
{
    push_arg(args, arg.to_owned());
}

/// Appends `flag value` when the value is set.
pub fn push_opt_flag(args: &mut Vec<String>, flag: &str, value: Option<String>)
    ensures
        strs(final(args)@) == strs(old(args)@) + opt_flag(flag@, opt_view(value)),
{
    match value {
        Some(v) => {
            let ghost before = strs(args@);
            let ghost vv = v@;
            push_str(args, flag);
            push_arg(args, v);
            assert(strs(args@) =~= before + opt_flag(flag@, Some(vv)));
        },
        None => {
            assert(strs(args@) =~= strs(args@) + Seq::empty());
        },
    }
}

/// Appends `flag` when `on` holds.
pub fn push_switch(args: &mut Vec<String>, flag: &str, on: bool)
    ensures
        strs(final(args)@) == strs(old(args)@) + switch(flag@, on),
{
    if on {
        let ghost before = strs(args@);
        push_str(args, flag);
        assert(strs(args@) =~= before + switch(flag@, on));
    } else {
        assert(strs(args@) =~= strs(args@) + Seq::empty());
    }
}

/// Appends `--focus`, `--no-focus` or nothing.
pub fn push_focus(args: &mut Vec<String>, focus: Option<bool>)
    ensures
        strs(final(args)@) == strs(old(args)@) + focus_args(focus),
{
    let ghost before = strs(args@);
    match focus {
        Some(true) => push_str(args, "--focus"),
        Some(false) => push_str(args, "--no-focus"),
        None => {},
    }
    assert(strs(args@) =~= before + focus_args(focus));
}

/// Appends `--env key=value` for every entry, in order.
pub fn push_env(args: &mut Vec<String>, env: &Vec<(String, String)>)
    ensures
        strs(final(args)@) == strs(old(args)@) + env_args(env@),
{
    let ghost start = strs(args@);
    let n = env.len();
    let mut i: usize = 0;
    assert(env@.subrange(0, 0) =~= Seq::<(String, String)>::empty());
    assert(strs(args@) =~= start + env_args(env@.subrange(0, 0)));
    while i < n
        invariant
            n == env.len(),
            i <= n,
            strs(args@) == start + env_args(env@.subrange(0, i as int)),
        decreases n - i,
    {
        let ghost before = strs(args@);
        push_str(args, "--env");
        let kv = join_key_value(env[i].0.as_str(), env[i].1.as_str());
        push_arg(args, kv);
        let ghost sub = env@.subrange(0, i + 1);
        assert(sub.drop_last() =~= env@.subrange(0, i as int));
        assert(strs(args@) =~= start + env_args(sub));
        i += 1;
    }
    assert(env@.subrange(0, n as int) =~= env@);
}

/// A new argument list holding `first` and `second`.
pub fn args2(first: &str, second: &str) -> (args: Vec<String>)
    ensures
        strs(args@) == seq![first@, second@],
{
    let mut args: Vec<String> = Vec::new();
    assert(strs(args@) =~= Seq::empty());
    push_str(&mut args, first);
    push_str(&mut args, second);
    assert(strs(args@) =~= seq![first@, second@]);
    args
}

/// A new argument list holding `first`, `second` and `third`.
pub fn args3(first: &str, second: &str, third: &str) -> (args: Vec<String>)
    ensures
        strs(args@) == seq![first@, second@, third@],
{
    let mut args = args2(first, second);
    push_str(&mut args, third);
    assert(strs(args@) =~= seq![first@, second@, third@]);
    args
}

/// A new argument list holding the four given arguments.
pub fn args4(first: &str, second: &str, third: &str, fourth: &str) -> (args: Vec<String>)
    ensures
        strs(args@) == seq![first@, second@, third@, fourth@],
{
    let mut args = args3(first, second, third);
    push_str(&mut args, fourth);
    assert(strs(args@) =~= seq![first@, second@, third@, fourth@]);
    args
}

} // verus!
