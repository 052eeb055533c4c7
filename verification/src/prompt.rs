//! Rendering of the individual prompt segments: each takes the plain values
//! an outer layer looked up (time text, user name, host name, environment
//! values) and yields the decorated fragment, and the final line assembly
//! joins the fragments with the prompt's frame.

use vstd::prelude::*;
use vstd::string::*;

use crate::decor::Color;
use crate::decor::DecoratedString;
use crate::decor::bold_wrap;
use crate::decor::color_wrap;
use crate::paths::file_name;
use crate::paths::file_name_spec;
use crate::text::has_prefix;
use crate::text::strip_prefix;

verus! {

/// Why no shell segment could be rendered.
#[derive(Clone, Copy, Debug, PartialEq, Eq, Structural)]
pub enum ShellError {
    /// The shell environment value was not set.
    EnvNotSet,
    /// The shell path has no final segment to use as a name.
    NoShellName,
}

/// The wording of each shell failure, for diagnostic output.
pub open spec fn shell_error_message_spec(e: ShellError) -> Seq<char> {
    match e {
        ShellError::EnvNotSet => "shell env not set"@,
        ShellError::NoShellName => "failed to get shell name"@,
    }
}

impl ShellError {
    /// A short description of the failure, for diagnostic output.
    pub fn message(&self) -> (r: &'static str)
        ensures
            r@ == shell_error_message_spec(*self),
    {
        match self {
            ShellError::EnvNotSet => "shell env not set",
            ShellError::NoShellName => "failed to get shell name",
        }
    }
}

/// The time segment: the formatted time, bold, in cyan.
pub fn time_display(t: String) -> (r: String)
    ensures
        r@ == color_wrap(bold_wrap(t@), Color::Cyan),
{
    DecoratedString::new(t).bold().colored(Color::Cyan).to_ansi()
}

/// The user segment: the name in red for the superuser, magenta otherwise,
/// bold either way.
pub fn user_display(name: String) -> (r: String)
    ensures
        name@ == "root"@ ==> r@ == bold_wrap(color_wrap(name@, Color::Red)),
        name@ != "root"@ ==> r@ == bold_wrap(color_wrap(name@, Color::Magenta)),
{
    let root = String::from_str("root");
    if name == root {
        DecoratedString::new(name).colored(Color::Red).bold().to_ansi()
    } else {
        DecoratedString::new(name).colored(Color::Magenta).bold().to_ansi()
    }
}

/// The host segment: the host name, bold, in green.
pub fn hostname_display(h: String) -> (r: String)
    ensures
        r@ == bold_wrap(color_wrap(h@, Color::Green)),
{
    DecoratedString::new(h).colored(Color::Green).bold().to_ansi()
}

/// The status segment: a zero exit status in green, anything else in red,
/// bold either way.
pub fn status_display(status: String) -> (r: String)
    ensures
        status@ == "0"@ ==> r@ == bold_wrap(color_wrap(status@, Color::Green)),
        status@ != "0"@ ==> r@ == bold_wrap(color_wrap(status@, Color::Red)),
{
    let zero = String::from_str("0");
    if status == zero {
        DecoratedString::new(status).colored(Color::Green).bold().to_ansi()
    } else {
        DecoratedString::new(status).colored(Color::Red).bold().to_ansi()
    }
}

/// The working directory with a home-directory prefix collapsed to `~`.
pub open spec fn collapse_home(cwd: Seq<char>, home: Option<Seq<char>>) -> Seq<char> {
    match home {
        Some(h) => if has_prefix(cwd, h) {
            "~"@ + cwd.skip(h.len() as int)
        } else {
            cwd
        },
        None => cwd,
    }
}

/// The directory segment: the working directory, its home prefix collapsed,
/// bold, in blue; a missing working directory renders as a bold red `!!!`.
pub fn cwd_display(cwd: Option<String>, home: Option<String>) -> (r: String)
    ensures
        cwd matches Some(c) ==> r@ == bold_wrap(
            color_wrap(collapse_home(c@, crate::paths::opt_str_view(home)), Color::Blue),
        ),
        cwd is None ==> r@ == bold_wrap(color_wrap("!!!"@, Color::Red)),
{
    match cwd {
        None => {
            let bang = String::from_str("!!!");
            DecoratedString::new(bang).colored(Color::Red).bold().to_ansi()
        },
        Some(c) => {
            let shown = match home {
                Some(h) => {
                    match strip_prefix(c.as_str(), h.as_str()) {
                        Some(rest) => {
                            let mut t = String::from_str("~");
                            t.append(rest);
                            t
                        },
                        None => c,
                    }
                },
                None => c,
            };
            DecoratedString::new(shown).colored(Color::Blue).bold().to_ansi()
        },
    }
}

/// The shell segment: the file-name component of the shell path, bold; a
/// path with no file-name component is a reportable failure.
pub fn shell_display(shell_path: &str) -> (r: Result<String, ShellError>)
    ensures
        file_name_spec(shell_path@) is None ==> r == Err::<String, ShellError>(
            ShellError::NoShellName,
        ),
        file_name_spec(shell_path@) matches Some(n) ==> (r matches Ok(s) && s@ == bold_wrap(n)),
{
    match file_name(shell_path) {
        None => Err(ShellError::NoShellName),
        Some(seg) => Ok(DecoratedString::new(String::from_str(seg)).bold().to_ansi()),
    }
}

/// The conda segment: the environment name behind a snake, bold.
pub fn conda_display(env_name: &str) -> (r: String)
    ensures
        r@ == bold_wrap("\u{1f40d} "@ + env_name@),
{
    let mut t = String::from_str("\u{1f40d} ");
    t.append(env_name);
    DecoratedString::new(t).bold().to_ansi()
}

/// The nix-shell segment: the shell name, or its stock name when none is
/// set, behind a fixed prefix, bold.
pub fn nix_shell_display(name: Option<String>) -> (r: String)
    ensures
        name matches Some(n) ==> r@ == bold_wrap("nix: "@ + n@),
        name is None ==> r@ == bold_wrap("nix: "@ + "nix-shell"@),
{
    let mut t = String::from_str("nix: ");
    match name {
        Some(n) => t.append(n.as_str()),
        None => t.append("nix-shell"),
    }
    DecoratedString::new(t).bold().to_ansi()
}

/// A sequence of fragments joined by a separator.
pub open spec fn sep_join(cs: Seq<Seq<char>>, sep: Seq<char>) -> Seq<char>
    decreases cs.len(),
{
    if cs.len() == 0 {
        seq![]
    } else if cs.len() == 1 {
        cs[0]
    } else {
        sep_join(cs.drop_last(), sep) + sep + cs.last()
    }
}

/// The assembled prompt line: the fragments joined by the frame separator,
/// between the frame's opening and closing pieces.
pub open spec fn assemble_line_spec(cs: Seq<Seq<char>>) -> Seq<char> {
    "\u{250c}["@ + sep_join(cs, "]-["@) + "]\n\u{2514}> "@
}

/// Join the rendered segments into the final prompt line.
pub fn assemble_line(components: &Vec<String>) -> (r: String)
    ensures
        r@ == assemble_line_spec(components@.map_values(|v: String| v@)),
{
    let ghost views = components@.map_values(|v: String| v@);
    let mut r = String::from_str("\u{250c}[");
    let mut i: usize = 0;
    while i < components.len()
        invariant
            i <= components.len(),
            views == components@.map_values(|v: String| v@),
            views.len() == components@.len(),
            r@ == "\u{250c}["@ + sep_join(views.take(i as int), "]-["@),
        decreases components.len() - i,
    {
        if i != 0 {
            r.append("]-[");
        }
        r.append(components[i].as_str());
        proof {
            assert(views.take((i + 1) as int).drop_last() =~= views.take(i as int));
            assert(views.take((i + 1) as int).last() == views[i as int]);
            if i == 0 {
                assert(sep_join(views.take(1), "]-["@) == views[0]);
                assert(r@ =~= "\u{250c}["@ + sep_join(views.take(1), "]-["@));
            } else {
                assert(r@ =~= "\u{250c}["@ + sep_join(views.take((i + 1) as int), "]-["@));
            }
        }
        i += 1;
    }
    proof {
        assert(views.take(components@.len() as int) =~= views);
    }
    r.append("]\n\u{2514}> ");
    proof {
        assert(r@ =~= assemble_line_spec(views));
    }
    r
}

} // verus!
