//! The pipeline compiler: an ordered stage list becomes one shell script,
//! the runtime preamble followed by the array of stage names and one guarded
//! block per stage, in input order.
use vstd::prelude::*;
use indexmap::IndexMap;
use crate::stage_map::{entries_of, stage_count, stage_at};
use crate::execution::Hook;
use crate::error::{HmdError, Malformed};

verus! {

/// The runtime that every compiled pipeline starts with. It defines the
/// `run`, `complete` and `panic` hooks, each of which appends one line to the
/// status log and fails when that log cannot be written.
pub const PIPELINE_RUNTIME: &'static str = "#!/usr/bin/env bash\n\
\n\
STATUS_LOG=status.log\n\
\n\
status_entry() {\n\
  echo \"[`date +%FT%T`] $1 stage $(( $2 + 1 )) of ${#stages[@]}: ${stages[$2]}\" >> \"$STATUS_LOG\";\n\
}\n\
\n\
run() {\n\
  status_entry started \"$1\";\n\
}\n\
\n\
complete() {\n\
  status_entry completed \"$1\";\n\
}\n\
\n\
panic() {\n\
  status_entry failed \"$1\";\n\
}\n\
\n\
echo \"[`date +%FT%T`] pipeline $$ started\" >> \"$STATUS_LOG\" || exit 1;";

/// The text of one decimal digit.
pub open spec fn digit_text(d: nat) -> Seq<char> {
    if d == 0 { "0"@ }
    else if d == 1 { "1"@ }
    else if d == 2 { "2"@ }
    else if d == 3 { "3"@ }
    else if d == 4 { "4"@ }
    else if d == 5 { "5"@ }
    else if d == 6 { "6"@ }
    else if d == 7 { "7"@ }
    else if d == 8 { "8"@ }
    else { "9"@ }
}

/// `n` written in decimal, without leading zeros.
pub open spec fn decimal(n: nat) -> Seq<char>
    decreases n,
{
    if n < 10 {
        digit_text(n)
    } else {
        decimal(n / 10) + digit_text(n % 10)
    }
}

/// Appends `n` in decimal to `s`.
pub fn push_decimal(s: &mut String, n: usize)
    ensures
        final(s)@ == old(s)@ + decimal(n as nat),
    decreases n,
{
    if n >= 10 {
        push_decimal(s, n / 10);
    }
    let d = n % 10;
    let t: &str = if d == 0 { "0" }
        else if d == 1 { "1" }
        else if d == 2 { "2" }
        else if d == 3 { "3" }
        else if d == 4 { "4" }
        else if d == 5 { "5" }
        else if d == 6 { "6" }
        else if d == 7 { "7" }
        else if d == 8 { "8" }
        else { "9" };
    s.append(t);
    assert(s@ == old(s)@ + decimal(n as nat));
}

/// What the shell runs for `command`: an empty command becomes `true`, so
/// that its stage trivially succeeds.
pub open spec fn runnable(command: Seq<char>) -> Seq<char> {
    if command.len() == 0 {
        "true"@
    } else {
        command
    }
}

/// The shell text of one event of the run model: the call that produces it.
pub open spec fn hook_text(h: Hook, command: Seq<char>) -> Seq<char> {
    match h {
        Hook::Run(i) => "run "@ + decimal(i as nat),
        Hook::Command(_) => runnable(command),
        Hook::Complete(i) => "complete "@ + decimal(i as nat),
        Hook::Panic(i) => "panic "@ + decimal(i as nat),
        Hook::Exit(c) => "exit "@ + decimal(c as nat),
    }
}

/// The block of stage `i`, named `name`, that runs `command`:
///
/// ```text
/// echo -e "<start banner> Start <name>\n<command>\n";
/// run <i> && <command, or true if empty> && complete <i> || {
///   echo -e "<failure banner> Failed <name>\n";
///   panic <i>;
///   exit 1;
/// };
/// echo -e "<end banner> End <name>\n";
/// ```
///
/// The text is the run model written out: the `&&` chain holds the calls of
/// `Hook::Run(i)`, `Hook::Command(i)` and `Hook::Complete(i)`, in the order in
/// which `block_trace` lists them, and the failure branch holds those of
/// `Hook::Panic(i)` and `Hook::Exit(1)`, which `block_trace` appends when the
/// chain fails. Each call of the chain runs only when the one before it
/// succeeded.
pub open spec fn stage_block(i: usize, name: Seq<char>, command: Seq<char>) -> Seq<char> {
    "echo -e \"\\n\u{1F7E9} [`date +%FT%T`] > Start "@ + name + "\\n"@ + command + "\\n\";\n"@
        + hook_text(Hook::Run(i), command) + " && "@ + hook_text(Hook::Command(i), command) + " && "@
        + hook_text(Hook::Complete(i), command)
        + " || {\n  echo -e \"\\n\u{274C} [`date +%FT%T`] > Failed "@ + name + "\\n\";\n  "@
        + hook_text(Hook::Panic(i), command) + ";\n  "@ + hook_text(Hook::Exit(1), command)
        + ";\n};\necho -e \"\\n\u{1F7E9} [`date +%FT%T`] > End "@ + name + "\\n\";"@
}

/// The block of the entry at `i`.
pub open spec fn entry_block(e: Seq<(Seq<char>, Seq<char>)>, i: int) -> Seq<char> {
    stage_block(i as usize, e[i].0, e[i].1)
}

/// The names of the entries, separated by single spaces.
pub open spec fn joined_names(e: Seq<(Seq<char>, Seq<char>)>) -> Seq<char>
    decreases e.len(),
{
    if e.len() == 0 {
        Seq::empty()
    } else if e.len() == 1 {
        e[0].0
    } else {
        joined_names(e.drop_last()) + " "@ + e.last().0
    }
}

/// The blocks of the entries, in order, separated by blank lines.
pub open spec fn joined_blocks(e: Seq<(Seq<char>, Seq<char>)>) -> Seq<char>
    decreases e.len(),
{
    if e.len() == 0 {
        Seq::empty()
    } else if e.len() == 1 {
        entry_block(e, 0)
    } else {
        joined_blocks(e.drop_last()) + "\n\n"@ + entry_block(e, e.len() - 1)
    }
}

/// The whole pipeline script: the runtime, the array of stage names, then
/// the blocks.
pub open spec fn pipeline_script(e: Seq<(Seq<char>, Seq<char>)>) -> Seq<char> {
    PIPELINE_RUNTIME@ + "\n\nstages=("@ + joined_names(e) + ");\n\n"@ + joined_blocks(e)
}

/// Builds the block of stage `i`.
pub fn stage_command(i: usize, name: &str, command: &str) -> (r: String)
    ensures
        r@ == stage_block(i, name@, command@),
{
    let mut r = String::from_str("echo -e \"\\n\u{1F7E9} [`date +%FT%T`] > Start ");
    r.append(name);
    r.append("\\n");
    r.append(command);
    r.append("\\n\";\n");
    r.append("run ");
    push_decimal(&mut r, i);
    r.append(" && ");
    if command.is_empty() {
        r.append("true");
    } else {
        r.append(command);
    }
    r.append(" && ");
    r.append("complete ");
    push_decimal(&mut r, i);
    r.append(" || {\n  echo -e \"\\n\u{274C} [`date +%FT%T`] > Failed ");
    r.append(name);
    r.append("\\n\";\n  ");
    r.append("panic ");
    push_decimal(&mut r, i);
    r.append(";\n  ");
    r.append("exit ");
    push_decimal(&mut r, 1);
    r.append(";\n};\necho -e \"\\n\u{1F7E9} [`date +%FT%T`] > End ");
    r.append(name);
    r.append("\\n\";");
    r
}

/// The block of every stage, in order.
pub fn stage_commands(stages: &IndexMap<String, String>) -> (r: Vec<String>)
    ensures
        r@.len() == entries_of(*stages).len(),
        forall|i: int| 0 <= i < r@.len() ==> (#[trigger] r@[i])@ == entry_block(entries_of(*stages), i),
{
    let n = stage_count(stages);
    let mut r: Vec<String> = Vec::new();
    let mut i: usize = 0;
    while i < n
        invariant
            n == entries_of(*stages).len(),
            i <= n,
            r@.len() == i,
            forall|k: int| 0 <= k < i ==> (#[trigger] r@[k])@ == entry_block(entries_of(*stages), k),
        decreases n - i,
    {
        let entry = stage_at(stages, i);
        match entry {
            Some((name, command)) => {
                r.push(stage_command(i, name.as_str(), command.as_str()));
            },
            None => {
                proof {
                    assert(false);
                }
            },
        }
        i = i + 1;
    }
    r
}

/// The pipeline script of `stages`; a list without stages is refused.
pub fn generate_pipeline_sh(stages: &IndexMap<String, String>) -> (r: Result<String, HmdError>)
    ensures
        entries_of(*stages).len() == 0 ==> r == Err::<String, HmdError>(
            HmdError::DescriptorMalformed(Malformed::NoStages),
        ),
        entries_of(*stages).len() > 0 ==> (r matches Ok(t) && t@ == pipeline_script(entries_of(*stages))),
{
    let ghost e = entries_of(*stages);
    let n = stage_count(stages);
    if n == 0 {
        return Err(HmdError::DescriptorMalformed(Malformed::NoStages));
    }
    let blocks = stage_commands(stages);
    let mut names = String::new();
    let mut body = String::new();
    let mut i: usize = 0;
    while i < n
        invariant
            n == e.len(),
            e == entries_of(*stages),
            blocks@.len() == n,
            forall|k: int| 0 <= k < n ==> (#[trigger] blocks@[k])@ == entry_block(e, k),
            i <= n,
            names@ == joined_names(e.take(i as int)),
            body@ == joined_blocks(e.take(i as int)),
        decreases n - i,
    {
        let entry = stage_at(stages, i);
        match entry {
            Some((name, _)) => {
                if i > 0 {
                    names.append(" ");
                    body.append("\n\n");
                }
                names.append(name.as_str());
                body.append(blocks[i].as_str());
            },
            None => {
                proof {
                    assert(false);
                }
            },
        }
        proof {
            let t = e.take(i + 1);
            assert(t.drop_last() =~= e.take(i as int));
            assert(t.last() == e[i as int]);
            assert(entry_block(t, i as int) == entry_block(e, i as int));
            if i == 0 {
                assert(joined_names(t) == t[0].0);
            }
        }
        i = i + 1;
    }
    assert(e.take(n as int) =~= e);
    let mut r = String::from_str(PIPELINE_RUNTIME);
    r.append("\n\nstages=(");
    r.append(names.as_str());
    r.append(");\n\n");
    r.append(body.as_str());
    Ok(r)
}

} // verus!
