//! The bridge to the interactive shell.
//!
//! The shell and the file manager are separate processes that meet at two
//! named pipes.  This module decides what travels over them: the text of a
//! command that the shell is asked to run, and the framing of a message on a
//! pipe.  Signalling the shell and opening the pipes, in this order, is the
//! caller's part.

use vstd::prelude::*;
use vstd::string::*;
use crate::file_manager::FileInfo;
use crate::open_methods::OpenMethods;
use crate::text::chars_of;

verus! {

/// The pipe that carries commands from the file manager to the shell.
pub const CMDS_TO_RUN: &'static str = "/tmp/scd-cmds-to-run";

/// The pipe that carries events from the shell to the file manager.
pub const SHELL_EVENTS: &'static str = "/tmp/scd-shell-events";

/// What the fish shell runs when it attaches to the file manager: it
/// announces its process id and every change of its directory, runs the
/// commands that the file manager sends when it is woken, and defines the
/// command that takes all this away again.
pub const FISH_INIT: &'static str = r#"
function scd_eval --on-signal SIGUSR1
    eval (scd get-cmd)
end

function scd_run_silently
    eval $argv && commandline -f repaint
end

function scd_run_with_echo
    commandline $argv && commandline -f execute
end

function scd_cd --on-variable PWD
    scd cd $PWD
end

function scd_exit --on-event fish_exit
    scd exit
end

scd send-pid $fish_pid
scd_cd

function scd_deinit
    functions --erase scd_eval scd_run_silently scd_run_with_echo scd_cd scd_exit scd_deinit
end
"#;

/// What the Z shell runs when it attaches to the file manager.
pub const ZSH_INIT: &'static str = r#"
TRAPUSR1() {
    eval $(scd get-cmd)
}

scd_run_silently() {
    eval $@ && zle reset-prompt
}

scd_run_with_echo() {
    echo $@ && eval $@ && print -s $@ && zle reset-prompt
}

scd_cd() {
    scd cd $PWD
}

scd_exit() {
    scd exit
}

autoload add-zsh-hook
add-zsh-hook chpwd scd_cd
add-zsh-hook zshexit scd_exit
scd send-pid $$

scd_deinit() {
    add-zsh-hook -d chpwd scd_cd
    add-zsh-hook -d zshexit scd_exit
    unfunction TRAPUSR1 scd_run_silently scd_run_with_echo scd_cd scd_exit scd_deinit
}
"#;

/// Events emitted from the shell.
#[derive(Clone, Debug)]
pub enum ShellEvent {
    /// The shell announces its process id.
    Pid(i32),
    /// The shell's current directory was changed.
    ChangeDirectory(String),
    /// The shell exited.
    Exit,
    /// The shell asks that a command be run and monitored as a task.
    Task { command: String, rendered: String },
}

/// A command on its way to the shell: the process `pid` is woken, and
/// `text` is written to the command pipe, which the woken shell reads.  The
/// wake comes first because a named pipe cannot be opened for writing
/// before a reader has opened it, and the shell opens it only when woken.
#[derive(Clone, Debug)]
pub struct Command {
    pub pid: i32,
    pub text: String,
}

/// The model of a [`Command`].
pub struct CommandView {
    pub pid: i32,
    pub text: Seq<char>,
}

impl View for Command {
    type V = CommandView;

    open spec fn view(&self) -> CommandView {
        CommandView { pid: self.pid, text: self.text@ }
    }
}

impl DeepView for Command {
    type V = CommandView;

    open spec fn deep_view(&self) -> CommandView {
        self@
    }
}

/// A shell is attached when its process id is known, that is, positive.
pub open spec fn attached(pid: i32) -> bool {
    pid > 0
}

/// An argument between single quotes.
pub open spec fn quoted(arg: Seq<char>) -> Seq<char> {
    seq!['\''] + arg + seq!['\'']
}

/// The arguments, each quoted, with one space between neighbours.
pub open spec fn quoted_args(args: Seq<Seq<char>>) -> Seq<char>
    decreases args.len(),
{
    if args.len() == 0 {
        Seq::empty()
    } else if args.len() == 1 {
        quoted(args[0])
    } else {
        quoted_args(args.drop_last()) + seq![' '] + quoted(args.last())
    }
}

/// The placeholder `{}` stands in `template` at position `at`.
pub open spec fn placeholder_at(template: Seq<char>, at: int) -> bool {
    &&& 0 <= at
    &&& at + 1 < template.len()
    &&& template[at] == '{'
    &&& template[at + 1] == '}'
}

/// The template holds at least one placeholder.
pub open spec fn has_placeholder(template: Seq<char>) -> bool {
    exists|at: int| placeholder_at(template, at)
}

/// The template with every placeholder, read from the left, replaced by
/// `with`.
pub open spec fn substitute(template: Seq<char>, with: Seq<char>) -> Seq<char>
    decreases template.len(),
{
    if template.len() == 0 {
        template
    } else if placeholder_at(template, 0) {
        with + substitute(template.skip(2), with)
    } else {
        seq![template[0]] + substitute(template.skip(1), with)
    }
}

/// The command line: the arguments take the place of the placeholders, or
/// follow the template after a space when it has none.
pub open spec fn command_line(template: Seq<char>, args: Seq<Seq<char>>) -> Seq<char> {
    if has_placeholder(template) {
        substitute(template, quoted_args(args))
    } else {
        template + seq![' '] + quoted_args(args)
    }
}

/// The shell function that receives the command line.
pub open spec fn runner(echo: bool) -> Seq<char> {
    if echo {
        "scd_run_with_echo"@
    } else {
        "scd_run_silently"@
    }
}

/// What is typed into the shell: the runner, then the command line between
/// double quotes.
pub open spec fn shell_text(template: Seq<char>, args: Seq<Seq<char>>, echo: bool) -> Seq<char> {
    runner(echo) + seq![' ', '"'] + command_line(template, args) + seq!['"']
}

/// The command that reaches the shell `pid`, if one is attached.
pub open spec fn run_spec(pid: i32, template: Seq<char>, args: Seq<Seq<char>>, echo: bool) -> Option<
    CommandView,
> {
    if attached(pid) {
        Some(CommandView { pid, text: shell_text(template, args, echo) })
    } else {
        None
    }
}

fn quote_args(args: &Vec<String>) -> (out: String)
    ensures
        out@ == quoted_args(args.deep_view()),
{
    let mut out = String::new();
    let mut i: usize = 0;
    while i < args.len()
        invariant
            i <= args.len(),
            out@ == quoted_args(args.deep_view().take(i as int)),
        decreases args.len() - i,
    {
        proof {
            let dv = args.deep_view();
            assert(dv.take(i + 1).drop_last() =~= dv.take(i as int));
            assert(dv.take(i + 1).last() == args@[i as int]@);
        }
        if i > 0 {
            out.push(' ');
        }
        out.push('\'');
        out.append(args[i].as_str());
        out.push('\'');
        proof {
            let dv = args.deep_view();
            let prev = quoted_args(dv.take(i as int));
            let arg = args@[i as int]@;
            if i > 0 {
                assert(out@ =~= prev + seq![' '] + quoted(arg));
            } else {
                assert(prev =~= Seq::<char>::empty());
                assert(out@ =~= quoted(arg));
            }
        }
        i += 1;
    }
    proof {
        assert(args.deep_view().take(args.len() as int) =~= args.deep_view());
    }
    out
}

fn fill_template(template: &str, with: &str) -> (r: (String, bool))
    ensures
        r.0@ == substitute(template@, with@),
        r.1 == has_placeholder(template@),
{
    let t = chars_of(template);
    let mut out = String::new();
    let mut found = false;
    let mut i: usize = 0;
    proof {
        assert(t@.skip(0) =~= t@);
    }
    while i < t.len()
        invariant
            i <= t.len(),
            t@ == template@,
            out@ + substitute(t@.skip(i as int), with@) =~= substitute(t@, with@),
            found <==> exists|at: int| 0 <= at < i && placeholder_at(t@, at),
        decreases t.len() - i,
    {
        let ghost rest = t@.skip(i as int);
        let ghost before = out@;
        if t[i] == '{' && i + 1 < t.len() && t[i + 1] == '}' {
            out.append(with);
            found = true;
            proof {
                assert(placeholder_at(rest, 0));
                assert(placeholder_at(t@, i as int));
                assert(rest.skip(2) =~= t@.skip(i + 2));
                assert(out@ + substitute(t@.skip(i + 2), with@) =~= before + substitute(
                    rest,
                    with@,
                ));
            }
            i += 2;
        } else {
            out.push(t[i]);
            proof {
                assert(!placeholder_at(rest, 0));
                assert(!placeholder_at(t@, i as int));
                assert(rest.skip(1) =~= t@.skip(i + 1));
                assert(out@ + substitute(t@.skip(i + 1), with@) =~= before + substitute(
                    rest,
                    with@,
                ));
            }
            i += 1;
        }
    }
    proof {
        assert(t@.skip(t.len() as int) =~= Seq::<char>::empty());
        assert(out@ =~= substitute(t@, with@));
    }
    (out, found)
}

/// Composes the command that asks the shell `pid` to run `cmd` with `args`.
///
/// Without an attached shell there is nothing to send and the result is
/// `None`: the command is dropped, not kept for later.  Otherwise each
/// argument is put between single quotes; the arguments replace every `{}`
/// of `cmd`, or follow it when it has none.  With `echo` the shell shows the
/// line as if it had been typed and keeps it in its history; without, it
/// evaluates the line silently and repaints its prompt.
pub fn run(pid: i32, cmd: &str, args: &Vec<String>, echo: bool) -> (r: Option<Command>)
    ensures
        r.deep_view() == run_spec(pid, cmd@, args.deep_view(), echo),
{
    if pid <= 0 {
        return None;
    }
    let joined = quote_args(args);
    let (filled, found) = fill_template(cmd, joined.as_str());
    let line = if found {
        filled
    } else {
        let mut line = cmd.to_string();
        line.push(' ');
        line.append(joined.as_str());
        line
    };
    let mut text = if echo {
        "scd_run_with_echo".to_string()
    } else {
        "scd_run_silently".to_string()
    };
    text.push(' ');
    text.push('"');
    text.append(line.as_str());
    text.push('"');
    proof {
        assert(line@ =~= command_line(cmd@, args.deep_view()));
        assert(text@ =~= shell_text(cmd@, args.deep_view(), echo));
    }
    Some(Command { pid, text })
}

/// Composes the farewell to the shell `pid`: the command that removes what
/// the file manager had the shell define when it attached.  It is run
/// silently, with one empty argument.
pub fn deinit(pid: i32) -> (r: Option<Command>)
    ensures
        r.deep_view() == run_spec(pid, "scd_deinit"@, seq![Seq::<char>::empty()], false),
{
    let mut args: Vec<String> = Vec::new();
    args.push(String::new());
    proof {
        assert(args.deep_view() =~= seq![Seq::<char>::empty()]);
    }
    run(pid, "scd_deinit", &args, false)
}

/// The file manager's end of the bridge: it knows which shell is attached
/// and how files are opened there.
#[derive(Debug)]
pub struct Shell {
    /// The process id of the attached shell; zero while none is attached.
    pub pid: i32,
    pub open_methods: OpenMethods,
}

impl Shell {
    /// A bridge to which no shell is attached yet.
    pub fn new(open_methods: OpenMethods) -> (r: Shell)
        ensures
            r.pid == 0,
            r.open_methods == open_methods,
    {
        Shell { pid: 0, open_methods }
    }

    /// The process id of the attached shell.
    pub fn pid(&self) -> (pid: i32)
        ensures
            pid == self.pid,
    {
        self.pid
    }

    /// Takes in the process id that a shell has announced.
    pub fn attach(&mut self, pid: i32)
        ensures
            *final(self) == (Shell { pid, ..*old(self) }),
    {
        self.pid = pid;
    }

    /// The command that makes the shell change to the directory `dir`.
    pub open spec fn cd_command(&self, dir: Seq<char>) -> Option<CommandView> {
        run_spec(self.pid, "cd"@, seq![dir], false)
    }

    /// The command that opens `file` in the shell: the command that is
    /// configured for the file's extension, with the file's name.
    pub open spec fn open_command(&self, file: FileInfo) -> Option<CommandView> {
        run_spec(
            self.pid,
            self.open_methods.command_for(file.extension.deep_view()),
            seq![file.name@],
            true,
        )
    }

    /// Composes a command for the attached shell, as [`run`] does.
    pub fn run(&self, cmd: &str, args: &Vec<String>, echo: bool) -> (r: Option<Command>)
        ensures
            r.deep_view() == run_spec(self.pid, cmd@, args.deep_view(), echo),
    {
        run(self.pid, cmd, args, echo)
    }

    /// Composes the command that makes the shell change to `dir`, silently.
    pub fn cd(&self, dir: &str) -> (r: Option<Command>)
        ensures
            r.deep_view() == self.cd_command(dir@),
    {
        let mut args: Vec<String> = Vec::new();
        args.push(dir.to_string());
        proof {
            assert(args.deep_view() =~= seq![dir@]);
        }
        run(self.pid, "cd", &args, false)
    }

    /// Composes the command that opens `file`, visibly.
    pub fn open_file(&self, file: &FileInfo) -> (r: Option<Command>)
        ensures
            r.deep_view() == self.open_command(*file),
    {
        let opener = self.open_methods.open_command(&file.extension);
        let mut args: Vec<String> = Vec::new();
        args.push(file.name.clone());
        proof {
            assert(args.deep_view() =~= seq![file.name@]);
        }
        run(self.pid, opener.as_str(), &args, true)
    }

    /// Composes the farewell to the attached shell, as [`deinit`] does.
    pub fn deinit(&self) -> (r: Option<Command>)
        ensures
            r.deep_view() == run_spec(self.pid, "scd_deinit"@, seq![Seq::<char>::empty()], false),
    {
        deinit(self.pid)
    }
}

} // verus!
