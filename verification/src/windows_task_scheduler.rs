use vstd::prelude::*;

use base64::Engine;

use crate::config::CliError;
use crate::text::{chars_of, occurs_at, replace_all, replace_str, trim, trim_str};
use crate::user_service::{command_failure, command_failure_text, service_command, ServiceCommand, TargetOs};

verus! {

pub const USER_SERVICE_TASK_NAME: &'static str = "TT-Sync";

/// The error on a platform other than Windows.
pub open spec fn unsupported_text() -> Seq<char> {
    "Windows Task Scheduler user service (TT-Sync) is only supported on Windows"@
}

fn unsupported() -> (e: CliError)
    ensures
        e.is_config(unsupported_text()),
{
    CliError::Config(
        "Windows Task Scheduler user service (TT-Sync) is only supported on Windows".to_string(),
    )
}

/// A PowerShell string literal: in single quotes, each single quote doubled.
pub open spec fn powershell_literal_text(s: Seq<char>) -> Seq<char> {
    "'"@ + replace_all(s, "'"@, "''"@) + "'"@
}

pub fn powershell_literal(s: &str) -> (r: String)
    ensures
        r@ == powershell_literal_text(s@),
{
    proof {
        reveal_strlit("'");
    }
    let body = replace_str(s, "'", "''");
    let mut r = "'".to_string();
    r.append(body.as_str());
    r.append("'");
    r
}

/// `n` backslashes.
pub open spec fn backslashes(n: nat) -> Seq<char> {
    Seq::new(n, |i: int| '\\')
}

/// How many backslashes `s` starts with.
pub open spec fn leading_backslashes(s: Seq<char>) -> nat
    decreases s.len(),
{
    if s.len() > 0 && s[0] == '\\' {
        1 + leading_backslashes(s.drop_first())
    } else {
        0
    }
}

/// The inside of a quoted argument, by runs of backslashes: a run is written
/// as it is before an ordinary character, doubled and one more before a
/// double quote, which follows escaped, and doubled at the end, before the
/// closing quote.
pub open spec fn quoted_body(s: Seq<char>) -> Seq<char>
    decreases s.len(),
{
    let k = leading_backslashes(s);
    if k >= s.len() {
        backslashes(2 * s.len())
    } else {
        proof {
            lemma_leading_backslashes(s);
        }
        let rest = s.skip(k + 1 as int);
        if s[k as int] == '"' {
            backslashes(2 * k + 1) + seq!['"'] + quoted_body(rest)
        } else {
            backslashes(k) + seq![s[k as int]] + quoted_body(rest)
        }
    }
}

/// An argument needs quotes when it is empty or holds a space, a tab or a
/// double quote.
pub open spec fn needs_quotes(s: Seq<char>) -> bool {
    s.len() == 0 || s.contains(' ') || s.contains('\t') || s.contains('"')
}

/// An argument written so that the Windows command line reads it back whole:
/// as it is when it needs no quotes, otherwise in double quotes around its
/// quoted body.
pub open spec fn quoted_windows_arg(s: Seq<char>) -> Seq<char> {
    if !needs_quotes(s) {
        s
    } else {
        seq!['"'] + quoted_body(s) + seq!['"']
    }
}

/// How the Windows command line reads the inside of a quoted argument, up to
/// and including its closing quote: `2n` backslashes before a quote give `n`
/// backslashes and close the argument, which must then end; `2n + 1` give `n`
/// backslashes and a literal quote; backslashes before anything else stay as
/// they are. `None` when the text does not end at a closing quote.
pub open spec fn read_quoted(t: Seq<char>) -> Option<Seq<char>>
    decreases t.len(),
{
    let k = leading_backslashes(t);
    if k >= t.len() {
        None
    } else {
        proof {
            lemma_leading_backslashes(t);
        }
        if t[k as int] == '"' {
            if k % 2 == 0 {
                if k + 1 == t.len() {
                    Some(backslashes(k / 2))
                } else {
                    None
                }
            } else {
                match read_quoted(t.skip(k + 1 as int)) {
                    Some(r) => Some(backslashes((k / 2) as nat) + seq!['"'] + r),
                    None => None,
                }
            }
        } else {
            match read_quoted(t.skip(k + 1 as int)) {
                Some(r) => Some(backslashes(k) + seq![t[k as int]] + r),
                None => None,
            }
        }
    }
}

pub proof fn lemma_leading_backslashes(s: Seq<char>)
    ensures
        leading_backslashes(s) <= s.len(),
        forall|i: int| 0 <= i < leading_backslashes(s) ==> s[i] == '\\',
        leading_backslashes(s) < s.len() ==> s[leading_backslashes(s) as int] != '\\',
    decreases s.len(),
{
    if s.len() > 0 && s[0] == '\\' {
        lemma_leading_backslashes(s.drop_first());
        assert forall|i: int| 0 <= i < leading_backslashes(s) implies s[i] == '\\' by {
            if i > 0 {
                assert(s[i] == s.drop_first()[i - 1]);
            }
        }
    }
}

/// The leading run of backslashes of `backslashes(m)` followed by a
/// character other than a backslash is `m` long.
proof fn lemma_run_then(m: nat, c: char, rest: Seq<char>)
    requires
        c != '\\',
    ensures
        leading_backslashes(backslashes(m) + seq![c] + rest) == m,
        (backslashes(m) + seq![c] + rest)[m as int] == c,
        (backslashes(m) + seq![c] + rest).skip(m + 1 as int) == rest,
        (backslashes(m) + seq![c] + rest).len() == m + 1 + rest.len(),
    decreases m,
{
    let t = backslashes(m) + seq![c] + rest;
    if m > 0 {
        lemma_run_then((m - 1) as nat, c, rest);
        assert(t.drop_first() =~= backslashes((m - 1) as nat) + seq![c] + rest);
    }
    assert(t.skip(m + 1 as int) =~= rest);
}

/// A run of backslashes and nothing else.
proof fn lemma_all_backslashes(s: Seq<char>)
    requires
        leading_backslashes(s) >= s.len(),
    ensures
        s == backslashes(s.len()),
{
    lemma_leading_backslashes(s);
    assert(s =~= backslashes(s.len()));
}

/// A text split at its first character that is not a backslash.
proof fn lemma_split_run(s: Seq<char>)
    requires
        leading_backslashes(s) < s.len(),
    ensures
        s == backslashes(leading_backslashes(s)) + seq![s[leading_backslashes(s) as int]] + s.skip(
            leading_backslashes(s) + 1 as int,
        ),
{
    lemma_leading_backslashes(s);
    let k = leading_backslashes(s);
    assert(s =~= backslashes(k) + seq![s[k as int]] + s.skip(k + 1 as int));
}

proof fn lemma_backslashes_add(a: nat, b: nat)
    ensures
        backslashes(a) + backslashes(b) == backslashes(a + b),
{
    assert(backslashes(a) + backslashes(b) =~= backslashes(a + b));
}

/// The Windows command line reads a quoted argument back as the argument:
/// the quoted body followed by the closing quote reads as `s`.
pub proof fn lemma_read_quoted_body(s: Seq<char>)
    ensures
        read_quoted(quoted_body(s) + seq!['"']) == Some(s),
    decreases s.len(),
{
    lemma_leading_backslashes(s);
    let k = leading_backslashes(s);
    if k >= s.len() {
        lemma_all_backslashes(s);
        let t = quoted_body(s) + seq!['"'];
        assert(quoted_body(s) == backslashes(2 * s.len()));
        lemma_run_then(2 * s.len(), '"', Seq::<char>::empty());
        assert(t =~= backslashes(2 * s.len()) + seq!['"'] + Seq::<char>::empty());
        assert((2 * s.len()) % 2 == 0);
        assert((2 * s.len()) / 2 == s.len());
    } else {
        let c = s[k as int];
        let rest = s.skip(k + 1 as int);
        lemma_split_run(s);
        lemma_read_quoted_body(rest);
        if c == '"' {
            let t = quoted_body(s) + seq!['"'];
            lemma_backslashes_add(2 * k, 1);
            assert(backslashes(2 * k + 1) =~= backslashes(2 * k) + backslashes(1));
            let tail = quoted_body(rest) + seq!['"'];
            lemma_run_then(2 * k + 1, '"', tail);
            assert(t =~= backslashes(2 * k + 1) + seq!['"'] + tail);
            assert((2 * k + 1) % 2 == 1);
            assert((2 * k + 1) / 2 == k);
        } else {
            let t = quoted_body(s) + seq!['"'];
            let tail = quoted_body(rest) + seq!['"'];
            lemma_run_then(k, c, tail);
            assert(t =~= backslashes(k) + seq![c] + tail);
        }
    }
}

/// What `quote_windows_arg` writes reads back as the argument: unchanged when
/// it needs no quotes, and inside the quotes otherwise.
pub proof fn lemma_windows_arg_round_trip(s: Seq<char>)
    ensures
        !needs_quotes(s) ==> quoted_windows_arg(s) == s,
        needs_quotes(s) ==> quoted_windows_arg(s)[0] == '"' && read_quoted(quoted_windows_arg(s).drop_first())
            == Some(s),
{
    if needs_quotes(s) {
        lemma_read_quoted_body(s);
        assert(quoted_windows_arg(s).drop_first() =~= quoted_body(s) + seq!['"']);
    }
}

fn push_backslashes(out: &mut Vec<char>, n: usize)
    ensures
        final(out)@ == old(out)@ + backslashes(n as nat),
{
    let mut i: usize = 0;
    while i < n
        invariant
            i <= n,
            out@ == old(out)@ + backslashes(i as nat),
        decreases n - i,
    {
        out.push('\\');
        i = i + 1;
        assert(out@ =~= old(out)@ + backslashes(i as nat));
    }
}

fn needs_quotes_exec(cs: &[char]) -> (b: bool)
    ensures
        b == needs_quotes(cs@),
{
    if cs.len() == 0 {
        return true;
    }
    let mut i: usize = 0;
    while i < cs.len()
        invariant
            i <= cs@.len(),
            forall|j: int| 0 <= j < i ==> cs@[j] != ' ' && cs@[j] != '\t' && cs@[j] != '"',
        decreases cs@.len() - i,
    {
        if cs[i] == ' ' || cs[i] == '\t' || cs[i] == '"' {
            assert(cs@.contains(cs@[i as int]));
            return true;
        }
        i = i + 1;
    }
    false
}

/// The quoted body of a text that starts with a pending run of backslashes.
proof fn lemma_body_step(p: nat, c: char, rest: Seq<char>)
    ensures
        c == '\\' ==> backslashes(p) + seq![c] + rest == backslashes(p + 1) + rest,
        c == '"' ==> quoted_body(backslashes(p) + seq![c] + rest) == backslashes(2 * p + 1) + seq!['"']
            + quoted_body(rest),
        c != '"' && c != '\\' ==> quoted_body(backslashes(p) + seq![c] + rest) == backslashes(p) + seq![c]
            + quoted_body(rest),
{
    if c == '\\' {
        assert(backslashes(p) + seq![c] + rest =~= backslashes(p + 1) + rest);
    } else {
        lemma_run_then(p, c, rest);
    }
}

proof fn lemma_body_of_run(p: nat)
    ensures
        quoted_body(backslashes(p)) == backslashes(2 * p),
{
    lemma_leading_backslashes(backslashes(p));
    if leading_backslashes(backslashes(p)) < p {
        assert(backslashes(p)[leading_backslashes(backslashes(p)) as int] == '\\');
    }
}

/// Quotes one argument of a Windows command line.
pub fn quote_windows_arg(arg: &str) -> (r: String)
    ensures
        r@ == quoted_windows_arg(arg@),
{
    let cs = chars_of(arg);
    if !needs_quotes_exec(cs.as_slice()) {
        return arg.to_string();
    }
    let mut out: Vec<char> = Vec::new();
    out.push('"');
    let mut pending: usize = 0;
    let mut i: usize = 0;
    let ghost s = cs@;
    assert(s.skip(0) =~= s);
    assert(backslashes(0) + s.skip(0) =~= s);
    while i < cs.len()
        invariant
            i <= cs@.len(),
            s == cs@,
            pending <= i,
            out@ + quoted_body(backslashes(pending as nat) + s.skip(i as int)) == seq!['"'] + quoted_body(s),
        decreases cs@.len() - i,
    {
        let c = cs[i];
        let ghost rest = s.skip(i + 1);
        assert(s.skip(i as int) =~= seq![c] + rest);
        assert(backslashes(pending as nat) + s.skip(i as int) =~= backslashes(pending as nat) + seq![c] + rest);
        proof {
            lemma_body_step(pending as nat, c, rest);
        }
        if c == '\\' {
            pending = pending + 1;
        } else if c == '"' {
            let ghost before = out@;
            push_backslashes(&mut out, pending);
            push_backslashes(&mut out, pending);
            out.push('\\');
            out.push('"');
            assert(backslashes(pending as nat) + backslashes(pending as nat) + seq!['\\'] =~= backslashes(
                2 * pending as nat + 1,
            ));
            assert(out@ =~= before + (backslashes(2 * pending as nat + 1) + seq!['"']));
            assert(backslashes(0) + rest =~= rest);
            pending = 0;
        } else {
            let ghost before = out@;
            push_backslashes(&mut out, pending);
            out.push(c);
            assert(out@ =~= before + (backslashes(pending as nat) + seq![c]));
            assert(backslashes(0) + rest =~= rest);
            pending = 0;
        }
        i = i + 1;
    }
    assert(s.skip(cs@.len() as int) =~= Seq::<char>::empty());
    assert(backslashes(pending as nat) + s.skip(cs@.len() as int) =~= backslashes(pending as nat));
    proof {
        lemma_body_of_run(pending as nat);
    }
    push_backslashes(&mut out, pending);
    push_backslashes(&mut out, pending);
    out.push('"');
    assert(backslashes(pending as nat) + backslashes(pending as nat) =~= backslashes(2 * pending as nat));
    crate::text::string_from_chars(out.as_slice())
}

/// The arguments of the scheduled task: `background-serve` with the state
/// directory.
pub open spec fn task_arguments_text(state_dir: Seq<char>) -> Seq<char> {
    "background-serve --state-dir "@ + quoted_windows_arg(state_dir)
}

pub fn render_task_arguments(state_dir: &str) -> (r: String)
    ensures
        r@ == task_arguments_text(state_dir@),
{
    let q = quote_windows_arg(state_dir);
    let mut r = "background-serve --state-dir ".to_string();
    r.append(q.as_str());
    r
}

/// The task name as a PowerShell literal.
pub open spec fn task_name_literal() -> Seq<char> {
    powershell_literal_text(USER_SERVICE_TASK_NAME@)
}

/// The script that registers the task for the current user at log-on,
/// stopping a running one first, and starts it.
pub open spec fn install_script_text(exe: Seq<char>, state_dir: Seq<char>) -> Seq<char> {
    let task_name = task_name_literal();
    let description = powershell_literal_text("TT-Sync user-scope sync server (beta)"@);
    let execute = powershell_literal_text(exe);
    let arguments = powershell_literal_text(task_arguments_text(state_dir));
    "$ErrorActionPreference = 'Stop'\n$user = [System.Security.Principal.WindowsIdentity]::GetCurrent().Name\n$task = Get-ScheduledTask -TaskName "@
        + task_name
        + " -ErrorAction SilentlyContinue\nif ($null -ne $task -and $task.State.ToString() -eq 'Running') { Stop-ScheduledTask -TaskName "@
        + task_name + " }\n$action = New-ScheduledTaskAction -Execute "@ + execute + " -Argument "@
        + arguments
        + "\n$trigger = New-ScheduledTaskTrigger -AtLogOn -User $user\n$principal = New-ScheduledTaskPrincipal -UserId $user -LogonType Interactive -RunLevel Limited\n$settings = New-ScheduledTaskSettingsSet -ExecutionTimeLimit (New-TimeSpan -Seconds 0) -MultipleInstances IgnoreNew\nRegister-ScheduledTask -TaskName "@
        + task_name
        + " -Action $action -Trigger $trigger -Principal $principal -Settings $settings -Description "@
        + description + " -Force | Out-Null\nStart-ScheduledTask -TaskName "@ + task_name
}

pub fn install_script(exe: &str, state_dir: &str) -> (r: String)
    ensures
        r@ == install_script_text(exe@, state_dir@),
{
    let task_name = powershell_literal(USER_SERVICE_TASK_NAME);
    let description = powershell_literal("TT-Sync user-scope sync server (beta)");
    let execute = powershell_literal(exe);
    let args = render_task_arguments(state_dir);
    let arguments = powershell_literal(args.as_str());
    let mut r = "$ErrorActionPreference = 'Stop'\n$user = [System.Security.Principal.WindowsIdentity]::GetCurrent().Name\n$task = Get-ScheduledTask -TaskName ".to_string();
    r.append(task_name.as_str());
    r.append(
        " -ErrorAction SilentlyContinue\nif ($null -ne $task -and $task.State.ToString() -eq 'Running') { Stop-ScheduledTask -TaskName ",
    );
    r.append(task_name.as_str());
    r.append(" }\n$action = New-ScheduledTaskAction -Execute ");
    r.append(execute.as_str());
    r.append(" -Argument ");
    r.append(arguments.as_str());
    r.append(
        "\n$trigger = New-ScheduledTaskTrigger -AtLogOn -User $user\n$principal = New-ScheduledTaskPrincipal -UserId $user -LogonType Interactive -RunLevel Limited\n$settings = New-ScheduledTaskSettingsSet -ExecutionTimeLimit (New-TimeSpan -Seconds 0) -MultipleInstances IgnoreNew\nRegister-ScheduledTask -TaskName ",
    );
    r.append(task_name.as_str());
    r.append(" -Action $action -Trigger $trigger -Principal $principal -Settings $settings -Description ");
    r.append(description.as_str());
    r.append(" -Force | Out-Null\nStart-ScheduledTask -TaskName ");
    r.append(task_name.as_str());
    r
}

/// The script that starts the task.
pub open spec fn start_script_text() -> Seq<char> {
    "$ErrorActionPreference = 'Stop'\nStart-ScheduledTask -TaskName "@ + task_name_literal()
}

/// The script that stops the task.
pub open spec fn stop_script_text() -> Seq<char> {
    "$ErrorActionPreference = 'Stop'\nStop-ScheduledTask -TaskName "@ + task_name_literal()
}

/// The script that prints `true` when the task runs and `false` otherwise.
pub open spec fn is_active_script_text() -> Seq<char> {
    "$task = Get-ScheduledTask -TaskName "@ + task_name_literal()
        + " -ErrorAction SilentlyContinue\nif ($null -eq $task) { Write-Output 'false'; return }\nif ($task.State.ToString() -eq 'Running') { Write-Output 'true' } else { Write-Output 'false' }"@
}

/// The UTF-16 code units of a character.
pub open spec fn utf16_units(c: char) -> Seq<u16> {
    let v = c as u32;
    if v < 0x10000 {
        seq![v as u16]
    } else {
        seq![(0xD800 + (v - 0x10000) / 0x400) as u16, (0xDC00 + (v - 0x10000) % 0x400) as u16]
    }
}

/// The two bytes of a code unit, least significant first.
pub open spec fn unit_le_bytes(u: u16) -> Seq<u8> {
    seq![(u % 0x100) as u8, (u / 0x100) as u8]
}

/// The UTF-16LE bytes of a character.
pub open spec fn char_utf16le(c: char) -> Seq<u8> {
    let us = utf16_units(c);
    if us.len() == 1 {
        unit_le_bytes(us[0])
    } else {
        unit_le_bytes(us[0]) + unit_le_bytes(us[1])
    }
}

/// The UTF-16LE bytes of a text, as `str::encode_utf16` and `to_le_bytes` give
/// them.
pub open spec fn utf16le(s: Seq<char>) -> Seq<u8>
    decreases s.len(),
{
    if s.len() == 0 {
        Seq::empty()
    } else {
        utf16le(s.drop_last()) + char_utf16le(s.last())
    }
}

fn push_unit(out: &mut Vec<u8>, u: u16)
    ensures
        final(out)@ == old(out)@ + unit_le_bytes(u),
{
    out.push((u % 0x100) as u8);
    out.push((u / 0x100) as u8);
    assert(out@ =~= old(out)@ + unit_le_bytes(u));
}

pub fn utf16le_bytes(s: &str) -> (r: Vec<u8>)
    ensures
        r@ == utf16le(s@),
{
    let cs = chars_of(s);
    let mut out: Vec<u8> = Vec::new();
    let mut i: usize = 0;
    assert(cs@.take(0) =~= Seq::<char>::empty());
    while i < cs.len()
        invariant
            i <= cs@.len(),
            cs@ == s@,
            out@ == utf16le(cs@.take(i as int)),
        decreases cs@.len() - i,
    {
        let c = cs[i];
        assert(cs@.take(i + 1).drop_last() =~= cs@.take(i as int));
        assert(cs@.take(i + 1).last() == c);
        let v = c as u32;
        if v < 0x10000 {
            push_unit(&mut out, v as u16);
        } else {
            proof {
                vstd::utf8::char_is_scalar(c);
            }
            let w = v - 0x10000;
            assert(w / 0x400 < 0x400);
            push_unit(&mut out, (0xD800 + w / 0x400) as u16);
            push_unit(&mut out, (0xDC00 + w % 0x400) as u16);
        }
        i = i + 1;
    }
    assert(cs@.take(cs@.len() as int) =~= cs@);
    out
}

/// The code units that pairs of bytes stand for, the first byte of each pair
/// the low one.
pub open spec fn le_units(b: Seq<u8>) -> Seq<u16>
    decreases b.len(),
{
    if b.len() < 2 {
        Seq::empty()
    } else {
        le_units(b.subrange(0, b.len() - 2)).push((b[b.len() - 2] + 256 * b[b.len() - 1]) as u16)
    }
}

/// The text that UTF-16 code units stand for: a high surrogate followed by a
/// low one is the character above the basic plane that they split; any other
/// unit is the character of its own value.
pub open spec fn units_text(u: Seq<u16>) -> Seq<char>
    decreases u.len(),
{
    if u.len() == 0 {
        Seq::empty()
    } else if u.len() >= 2 && 0xDC00 <= u.last() < 0xE000 && 0xD800 <= u[u.len() - 2] < 0xDC00 {
        units_text(u.subrange(0, u.len() - 2)).push(
            ((0x10000 + (u[u.len() - 2] - 0xD800) * 0x400 + (u.last() - 0xDC00)) as u32) as char,
        )
    } else {
        units_text(u.drop_last()).push((u.last() as u32) as char)
    }
}

proof fn lemma_le_units_push(b: Seq<u8>, u: u16)
    ensures
        le_units(b + unit_le_bytes(u)) == le_units(b).push(u),
{
    let t = b + unit_le_bytes(u);
    assert(t.subrange(0, t.len() - 2) =~= b);
    assert(t[t.len() - 2] == (u % 0x100) as u8);
    assert(t[t.len() - 1] == (u / 0x100) as u8);
    assert((u % 0x100) + 256 * (u / 0x100) == u) by (nonlinear_arith);
}

/// Reading the UTF-16LE bytes of a text back as UTF-16LE gives the text: every
/// character of the basic plane is the one code unit of its value, and every
/// other character the surrogate pair that splits it.
pub proof fn lemma_utf16le_round_trip(s: Seq<char>)
    ensures
        units_text(le_units(utf16le(s))) == s,
    decreases s.len(),
{
    if s.len() > 0 {
        let p = s.drop_last();
        let c = s.last();
        lemma_utf16le_round_trip(p);
        let v = c as u32;
        vstd::utf8::char_is_scalar(c);
        vstd::utf8::char_u32_cast(c, v);
        let before = le_units(utf16le(p));
        if v < 0x10000 {
            lemma_le_units_push(utf16le(p), v as u16);
            let units = before.push(v as u16);
            assert(units.drop_last() =~= before);
            assert(!(0xDC00 <= units.last() < 0xE000));
            assert(units_text(units) == units_text(before).push(((v as u16) as u32) as char));
            assert((v as u16) as u32 == v);
        } else {
            let w = v - 0x10000;
            let hi = (0xD800 + w / 0x400) as u16;
            let lo = (0xDC00 + w % 0x400) as u16;
            assert(w / 0x400 < 0x400) by (nonlinear_arith)
                requires
                    w <= 0xFFFFF,
            ;
            assert(w % 0x400 < 0x400) by (nonlinear_arith);
            lemma_le_units_push(utf16le(p), hi);
            lemma_le_units_push(utf16le(p) + unit_le_bytes(hi), lo);
            assert(utf16le(s) =~= utf16le(p) + unit_le_bytes(hi) + unit_le_bytes(lo));
            let units = before.push(hi).push(lo);
            assert(units.subrange(0, units.len() - 2) =~= before);
            assert((w / 0x400) * 0x400 + w % 0x400 == w) by (nonlinear_arith);
            assert(0x10000 + (hi - 0xD800) * 0x400 + (lo - 0xDC00) == v);
            assert(units_text(units) == units_text(before).push(v as char));
        }
        assert(s =~= p.push(c));
    }
}


/// What `STANDARD.encode` of the `base64` crate gives for these bytes.
pub uninterp spec fn base64_standard(bytes: Seq<u8>) -> Seq<char>;

/// Calls `base64::engine::general_purpose::STANDARD.encode`; the text is named
/// by `base64_standard`. Inputs too long for the crate to size its output
/// are left out.
#[verifier::external_body]
fn encode_base64_standard(bytes: &[u8]) -> (r: String)
    requires
        bytes@.len() <= usize::MAX / 2,
    ensures
        r@ == base64_standard(bytes@),
{
    base64::engine::general_purpose::STANDARD.encode(bytes)
}

/// A script in the form `-EncodedCommand` takes: its UTF-16LE bytes in base64.
pub fn encode_powershell_command(script: &str) -> (r: String)
    requires
        utf16le(script@).len() <= usize::MAX / 2,
    ensures
        r@ == base64_standard(utf16le(script@)),
{
    let bytes = utf16le_bytes(script);
    encode_base64_standard(bytes.as_slice())
}

/// The PowerShell run of a script: without profile, not interactive, the
/// script encoded.
pub open spec fn powershell_shape(script: Seq<char>) -> (Seq<char>, Seq<Seq<char>>) {
    (
        "powershell.exe"@,
        seq!["-NoProfile"@, "-NonInteractive"@, "-EncodedCommand"@, base64_standard(utf16le(script))],
    )
}

pub fn powershell_command(script: &str) -> (c: ServiceCommand)
    requires
        utf16le(script@).len() <= usize::MAX / 2,
    ensures
        c.shape() == powershell_shape(script@),
{
    let mut args: Vec<String> = Vec::new();
    args.push("-NoProfile".to_string());
    args.push("-NonInteractive".to_string());
    args.push("-EncodedCommand".to_string());
    args.push(encode_powershell_command(script));
    let c = service_command("powershell.exe", args);
    assert(c.args@.map_values(|a: String| a@) =~= powershell_shape(script@).1);
    c
}

/// The length of a script's encoding, for scripts whose encoding fits in
/// memory twice over.
pub open spec fn encodable(script: Seq<char>) -> bool {
    utf16le(script).len() <= usize::MAX / 2
}

fn encodable_exec(script: &str) -> (b: bool)
    ensures
        b == encodable(script@),
{
    let bytes = utf16le_bytes(script);
    bytes.len() <= usize::MAX / 2
}

/// The path reported for the installed task: the task's name.
pub fn task_path() -> (r: String)
    ensures
        r@ == USER_SERVICE_TASK_NAME@,
{
    USER_SERVICE_TASK_NAME.to_string()
}

/// Whether the install script for these paths is short enough to encode.
pub fn install_script_encodable(exe: &str, state_dir: &str) -> (b: bool)
    ensures
        b == encodable(install_script_text(exe@, state_dir@)),
{
    let script = install_script(exe, state_dir);
    encodable_exec(script.as_str())
}

/// On Windows, the PowerShell run that installs and starts the task;
/// elsewhere, the error that says the Task Scheduler is Windows only.
pub fn install_enable_now_user_service(os: TargetOs, exe: &str, state_dir: &str) -> (r: Result<
    ServiceCommand,
    CliError,
>)
    requires
        encodable(install_script_text(exe@, state_dir@)),
    ensures
        os != TargetOs::Windows ==> (r matches Err(e) && e.is_config(unsupported_text())),
        os == TargetOs::Windows ==> (r matches Ok(c) && c.shape() == powershell_shape(
            install_script_text(exe@, state_dir@),
        )),
{
    if os != TargetOs::Windows {
        return Err(unsupported());
    }
    let script = install_script(exe, state_dir);
    Ok(powershell_command(script.as_str()))
}

proof fn lemma_utf16le_len(s: Seq<char>)
    ensures
        utf16le(s).len() <= 4 * s.len(),
    decreases s.len(),
{
    if s.len() > 0 {
        lemma_utf16le_len(s.drop_last());
    }
}

proof fn lemma_replace_all_len(s: Seq<char>, pat: Seq<char>, rep: Seq<char>)
    requires
        pat.len() > 0,
    ensures
        replace_all(s, pat, rep).len() <= (rep.len() + 1) * s.len(),
    decreases s.len(),
{
    if s.len() > 0 {
        if occurs_at(s, pat, 0) {
            lemma_replace_all_len(s.skip(pat.len() as int), pat, rep);
            let r = rep.len() as int;
            let n = s.len() as int;
            let p = pat.len() as int;
            assert(r + (r + 1) * (n - p) <= (r + 1) * n) by (nonlinear_arith)
                requires
                    r >= 0,
                    1 <= p <= n,
            ;
        } else {
            lemma_replace_all_len(s.drop_first(), pat, rep);
            let r = rep.len() as int;
            let n = s.len() as int;
            assert(1 + (r + 1) * (n - 1) <= (r + 1) * n) by (nonlinear_arith)
                requires
                    r >= 0,
                    n >= 1,
            ;
        }
    }
}

/// A script made of fixed text around the task name is short enough to
/// encode.
proof fn lemma_fixed_script_encodable(head: Seq<char>, tail: Seq<char>)
    requires
        head.len() + tail.len() <= 1000,
    ensures
        encodable(head + powershell_literal_text(USER_SERVICE_TASK_NAME@) + tail),
{
    reveal_strlit("TT-Sync");
    reveal_strlit("'");
    reveal_strlit("''");
    lemma_replace_all_len(USER_SERVICE_TASK_NAME@, "'"@, "''"@);
    lemma_utf16le_len(head + powershell_literal_text(USER_SERVICE_TASK_NAME@) + tail);
}

fn fixed_script_command(head: &str, tail: &str) -> (c: ServiceCommand)
    requires
        head@.len() + tail@.len() <= 1000,
    ensures
        c.shape() == powershell_shape(head@ + task_name_literal() + tail@),
{
    proof {
        lemma_fixed_script_encodable(head@, tail@);
    }
    let name = powershell_literal(USER_SERVICE_TASK_NAME);
    let mut s = head.to_string();
    s.append(name.as_str());
    s.append(tail);
    powershell_command(s.as_str())
}

/// On Windows, the PowerShell run that starts the task.
pub fn start_user_service(os: TargetOs) -> (r: Result<ServiceCommand, CliError>)
    ensures
        os != TargetOs::Windows ==> (r matches Err(e) && e.is_config(unsupported_text())),
        os == TargetOs::Windows ==> (r matches Ok(c) && c.shape() == powershell_shape(start_script_text())),
{
    if os != TargetOs::Windows {
        return Err(unsupported());
    }
    proof {
        reveal_strlit("$ErrorActionPreference = 'Stop'\nStart-ScheduledTask -TaskName ");
        reveal_strlit("");
    }
    let c = fixed_script_command("$ErrorActionPreference = 'Stop'\nStart-ScheduledTask -TaskName ", "");
    assert(start_script_text() =~= "$ErrorActionPreference = 'Stop'\nStart-ScheduledTask -TaskName "@ + task_name_literal() + ""@);
    Ok(c)
}

/// On Windows, the PowerShell run that stops the task.
pub fn stop_user_service(os: TargetOs) -> (r: Result<ServiceCommand, CliError>)
    ensures
        os != TargetOs::Windows ==> (r matches Err(e) && e.is_config(unsupported_text())),
        os == TargetOs::Windows ==> (r matches Ok(c) && c.shape() == powershell_shape(stop_script_text())),
{
    if os != TargetOs::Windows {
        return Err(unsupported());
    }
    proof {
        reveal_strlit("$ErrorActionPreference = 'Stop'\nStop-ScheduledTask -TaskName ");
        reveal_strlit("");
    }
    let c = fixed_script_command("$ErrorActionPreference = 'Stop'\nStop-ScheduledTask -TaskName ", "");
    assert(stop_script_text() =~= "$ErrorActionPreference = 'Stop'\nStop-ScheduledTask -TaskName "@ + task_name_literal() + ""@);
    Ok(c)
}

/// On Windows, the PowerShell run that prints whether the task runs.
pub fn is_user_service_active(os: TargetOs) -> (r: Result<ServiceCommand, CliError>)
    ensures
        os != TargetOs::Windows ==> (r matches Err(e) && e.is_config(unsupported_text())),
        os == TargetOs::Windows ==> (r matches Ok(c) && c.shape() == powershell_shape(is_active_script_text())),
{
    if os != TargetOs::Windows {
        return Err(unsupported());
    }
    proof {
        reveal_strlit("$task = Get-ScheduledTask -TaskName ");
        reveal_strlit(" -ErrorAction SilentlyContinue\nif ($null -eq $task) { Write-Output 'false'; return }\nif ($task.State.ToString() -eq 'Running') { Write-Output 'true' } else { Write-Output 'false' }");
    }
    let c = fixed_script_command(
        "$task = Get-ScheduledTask -TaskName ",
        " -ErrorAction SilentlyContinue\nif ($null -eq $task) { Write-Output 'false'; return }\nif ($task.State.ToString() -eq 'Running') { Write-Output 'true' } else { Write-Output 'false' }",
    );
    Ok(c)
}

/// The task runs when the script printed `true`.
pub fn is_active_from_output(stdout: &str) -> (b: bool)
    ensures
        b == (trim(stdout@) == "true"@),
{
    proof {
        reveal_strlit("true");
    }
    let t = chars_of(trim_str(stdout).as_str());
    t.len() == 4 && t[0] == 't' && t[1] == 'r' && t[2] == 'u' && t[3] == 'e' && {
        assert(t@ =~= "true"@);
        true
    }
}

/// The outcome of a PowerShell run: nothing on success, otherwise the error
/// that shows its exit status and outputs.
pub fn powershell_outcome(success: bool, status: &str, stdout: &str, stderr: &str) -> (r: Result<(), CliError>)
    ensures
        success ==> r is Ok,
        !success ==> (r matches Err(CliError::Io(m)) && m@ == command_failure_text(
            "powershell"@,
            status@,
            stdout@,
            stderr@,
        )),
{
    if success {
        return Ok(());
    }
    Err(command_failure("powershell", status, stdout, stderr))
}

} // verus!
