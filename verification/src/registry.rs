//! The command router, the argument-completion provider, the pure URL
//! resolver and the per-command planner. A plan is either a finished
//! document (for the local commands) or the one outbound fetch the
//! command needs next.

use vstd::prelude::*;
use vstd::string::*;
use crate::error::{CommandError, is_validation_error};
use crate::output::{OutputDocument, is_labeled_document, labeled_document};
use crate::text::{join, join_with, replace, replace_all, str_eq};

verus! {

broadcast use vstd::string::group_string_axioms;

/// The five command names are pairwise distinct.
proof fn lemma_command_names_distinct()
    ensures
        "echo"@ != "github"@,
        "echo"@ != "fabric"@,
        "echo"@ != "pypi"@,
        "echo"@ != "pick-one"@,
        "github"@ != "fabric"@,
        "github"@ != "pypi"@,
        "github"@ != "pick-one"@,
        "fabric"@ != "pypi"@,
        "fabric"@ != "pick-one"@,
        "pypi"@ != "pick-one"@,
{
    reveal_strlit("echo");
    reveal_strlit("github");
    reveal_strlit("fabric");
    reveal_strlit("pypi");
    reveal_strlit("pick-one");
    assert("echo"@.len() == 4);
    assert("github"@.len() == 6);
    assert("fabric"@.len() == 6);
    assert("pypi"@.len() == 4);
    assert("pick-one"@.len() == 8);
    assert("echo"@[0] == 'e');
    assert("github"@[0] == 'g');
    assert("fabric"@[0] == 'f');
    assert("pypi"@[0] == 'p');
}

/// The commands the router knows.
#[derive(Clone, Copy, Debug)]
pub enum CommandKind {
    Echo,
    Github,
    Fabric,
    Pypi,
    PickOne,
}

/// The name each command is registered under.
pub open spec fn command_name_view(k: CommandKind) -> Seq<char> {
    match k {
        CommandKind::Echo => "echo"@,
        CommandKind::Github => "github"@,
        CommandKind::Fabric => "fabric"@,
        CommandKind::Pypi => "pypi"@,
        CommandKind::PickOne => "pick-one"@,
    }
}

/// Whether a name belongs to a registered command.
pub open spec fn known_command(name: Seq<char>) -> bool {
    ||| name == "echo"@
    ||| name == "github"@
    ||| name == "fabric"@
    ||| name == "pypi"@
    ||| name == "pick-one"@
}

/// The router: resolves a command name, or rejects it with `None`.
pub fn lookup_command(name: &str) -> (r: Option<CommandKind>)
    ensures
        r is Some <==> known_command(name@),
        r matches Some(k) ==> command_name_view(k) == name@,
{
    if str_eq(name, "echo") {
        Some(CommandKind::Echo)
    } else if str_eq(name, "github") {
        Some(CommandKind::Github)
    } else if str_eq(name, "fabric") {
        Some(CommandKind::Fabric)
    } else if str_eq(name, "pypi") {
        Some(CommandKind::Pypi)
    } else if str_eq(name, "pick-one") {
        Some(CommandKind::PickOne)
    } else {
        None
    }
}

/// A suggested completion for a command argument. Accepting one with
/// `auto_run` set executes the command at once with the inserted text as
/// its sole argument.
#[derive(Debug)]
pub struct CompletionCandidate {
    pub label: String,
    pub insertion_text: String,
    pub auto_run: bool,
}

/// The three fixed candidates of the fixed-choice command.
pub open spec fn is_pick_one_candidates(v: Seq<CompletionCandidate>) -> bool {
    &&& v.len() == 3
    &&& v[0].label@ == "Option One"@ && v[0].insertion_text@ == "option-1"@ && v[0].auto_run
    &&& v[1].label@ == "Option Two"@ && v[1].insertion_text@ == "option-2"@ && v[1].auto_run
    &&& v[2].label@ == "Option Three"@ && v[2].insertion_text@ == "option-3"@ && v[2].auto_run
}

/// The argument-completion provider. A known command always gets a list:
/// the fixed-choice command's three candidates, otherwise an empty list
/// (the host falls back to free-text entry). An unrecognized name fails
/// with the unknown-command error, and with nothing else.
pub fn complete_slash_command_argument(name: &str, _args: &Vec<String>) -> (r: Result<
    Vec<CompletionCandidate>,
    CommandError,
>)
    ensures
        r is Ok <==> known_command(name@),
        r matches Err(e) ==> (e matches CommandError::UnknownCommand(n) && n@ == name@),
        r matches Ok(v) ==> (name@ == "pick-one"@ ==> is_pick_one_candidates(v@)),
        r matches Ok(v) ==> (name@ != "pick-one"@ ==> v@.len() == 0),
{
    proof {
        lemma_command_names_distinct();
    }
    match lookup_command(name) {
        None => Err(CommandError::UnknownCommand(String::from_str(name))),
        Some(CommandKind::PickOne) => {
            let mut v: Vec<CompletionCandidate> = Vec::new();
            v.push(
                CompletionCandidate {
                    label: String::from_str("Option One"),
                    insertion_text: String::from_str("option-1"),
                    auto_run: true,
                },
            );
            v.push(
                CompletionCandidate {
                    label: String::from_str("Option Two"),
                    insertion_text: String::from_str("option-2"),
                    auto_run: true,
                },
            );
            v.push(
                CompletionCandidate {
                    label: String::from_str("Option Three"),
                    insertion_text: String::from_str("option-3"),
                    auto_run: true,
                },
            );
            Ok(v)
        },
        Some(_) => Ok(Vec::new()),
    }
}

/// The target URL of each fetch-based command, a pure function of the
/// arguments: the repo path appended to the mirror host, or the joined
/// arguments substituted into a fixed template.
pub open spec fn resolved_url_view(k: CommandKind, args: Seq<Seq<char>>) -> Seq<char> {
    match k {
        CommandKind::Github => "https://uithub.com/"@ + join_with(args, " "@),
        CommandKind::Fabric => replace_all(
            "https://raw.githubusercontent.com/danielmiessler/fabric/refs/heads/main/patterns/{}/system.md"@,
            "{}"@,
            join_with(args, " "@),
        ),
        CommandKind::Pypi => replace_all(
            "https://pypi.org/pypi/{}/json"@,
            "{}"@,
            join_with(args, "-"@),
        ),
        _ => Seq::empty(),
    }
}

/// Builds the target URL for a fetch-based command. Arguments are
/// inserted verbatim: nothing is escaped or URL-encoded.
pub fn resolve_url(k: CommandKind, args: &Vec<String>) -> (r: String)
    requires
        k is Github || k is Fabric || k is Pypi,
    ensures
        r@ == resolved_url_view(k, args.deep_view()),
{
    proof {
        reveal_strlit("{}");
    }
    match k {
        CommandKind::Github => {
            let joined = join(args, " ");
            String::from_str("https://uithub.com/").concat(joined.as_str())
        },
        CommandKind::Fabric => {
            let joined = join(args, " ");
            replace(
                "https://raw.githubusercontent.com/danielmiessler/fabric/refs/heads/main/patterns/{}/system.md",
                "{}",
                joined.as_str(),
            )
        },
        _ => {
            let joined = join(args, "-");
            replace("https://pypi.org/pypi/{}/json", "{}", joined.as_str())
        },
    }
}

/// URL resolution is a pure function: the same command with the same
/// arguments always resolves to the same URL.
pub proof fn lemma_url_resolution_deterministic(
    k: CommandKind,
    args1: Seq<Seq<char>>,
    args2: Seq<Seq<char>>,
)
    requires
        args1 == args2,
    ensures
        resolved_url_view(k, args1) == resolved_url_view(k, args2),
{
}

/// What a command invocation needs next: a finished document, one
/// outbound fetch, or the package-registry lookup (a metadata fetch
/// followed by a second fetch).
#[derive(Debug)]
pub enum CommandPlan {
    Ready(OutputDocument),
    NeedsFetch { url: String, label: String },
    NeedsRegistryFetch { url: String, package: String },
}

/// The closed set of values the fixed-choice command accepts.
pub open spec fn valid_option(sel: Seq<char>) -> bool {
    ||| sel == "option-1"@
    ||| sel == "option-2"@
    ||| sel == "option-3"@
}

/// The confirmation body of the fixed-choice command.
pub open spec fn pick_one_body(sel: Seq<char>) -> Seq<char> {
    "You chose "@ + sel + "."@
}

/// The section label of the fixed-choice command.
pub open spec fn pick_one_label(sel: Seq<char>) -> Seq<char> {
    "Pick One: "@ + sel
}

/// The section label of the package-registry command.
pub open spec fn pypi_label(package: Seq<char>) -> Seq<char> {
    "PyPI: "@ + package
}

/// The error a known command raises on an empty argument list.
pub open spec fn empty_args_error_matches(name: Seq<char>, e: CommandError) -> bool {
    match e {
        CommandError::NoSelection => name == "pick-one"@,
        CommandError::MissingArgument(m) => {
            ||| (name == "echo"@ && m@ == "Need to provide text to echo"@)
            ||| (name == "github"@ && m@ == "Need to provide a repo path"@)
            ||| (name == "fabric"@ && m@ == "Need to provide a pattern name"@)
            ||| (name == "pypi"@ && m@ == "Need to provide a package name"@)
        },
        _ => false,
    }
}

/// Exactly what `plan_slash_command` returns, for every name and argument
/// list: which invocations are rejected, with which validation error, and
/// the full document or fetch plan of the accepted ones.
pub open spec fn plan_matches(
    name: Seq<char>,
    argsv: Seq<Seq<char>>,
    r: Result<CommandPlan, CommandError>,
) -> bool {
    if !known_command(name) {
        r matches Err(e) && (e matches CommandError::UnknownCommand(n) && n@ == name)
    } else if argsv.len() == 0 {
        r matches Err(e) && is_validation_error(e) && empty_args_error_matches(name, e)
    } else if name == "echo"@ {
        r matches Ok(p) && (p matches CommandPlan::Ready(doc) && is_labeled_document(
            doc,
            join_with(argsv, " "@),
            "Echo"@,
        ))
    } else if name == "pick-one"@ {
        if valid_option(join_with(argsv, " "@)) {
            r matches Ok(p) && (p matches CommandPlan::Ready(doc) && is_labeled_document(
                doc,
                pick_one_body(join_with(argsv, " "@)),
                pick_one_label(join_with(argsv, " "@)),
            ))
        } else {
            r matches Err(e) && (e matches CommandError::InvalidOption(v) && v@ == join_with(
                argsv,
                " "@,
            ))
        }
    } else if name == "github"@ {
        r matches Ok(p) && (p matches CommandPlan::NeedsFetch { url, label } && url@
            == resolved_url_view(CommandKind::Github, argsv) && label@ == "GitHub"@)
    } else if name == "fabric"@ {
        r matches Ok(p) && (p matches CommandPlan::NeedsFetch { url, label } && url@
            == resolved_url_view(CommandKind::Fabric, argsv) && label@ == "Fabric"@)
    } else {
        r matches Ok(p) && (p matches CommandPlan::NeedsRegistryFetch { url, package } && url@
            == resolved_url_view(CommandKind::Pypi, argsv) && package@ == join_with(argsv, "-"@))
    }
}

/// The planner behind `run_slash_command`: routes the name, validates the
/// arguments, and produces the finished document of a local command or
/// the fetch the command needs.
pub fn plan_slash_command(name: &str, args: &Vec<String>) -> (r: Result<CommandPlan, CommandError>)
    ensures
        plan_matches(name@, args.deep_view(), r),
{
    proof {
        lemma_command_names_distinct();
    }
    let kind = match lookup_command(name) {
        Some(k) => k,
        None => {
            return Err(CommandError::UnknownCommand(String::from_str(name)));
        },
    };
    if args.len() == 0 {
        return match kind {
            CommandKind::Echo => Err(
                CommandError::MissingArgument(String::from_str("Need to provide text to echo")),
            ),
            CommandKind::Github => Err(
                CommandError::MissingArgument(String::from_str("Need to provide a repo path")),
            ),
            CommandKind::Fabric => Err(
                CommandError::MissingArgument(String::from_str("Need to provide a pattern name")),
            ),
            CommandKind::Pypi => Err(
                CommandError::MissingArgument(String::from_str("Need to provide a package name")),
            ),
            CommandKind::PickOne => Err(CommandError::NoSelection),
        };
    }
    match kind {
        CommandKind::Echo => {
            let body = join(args, " ");
            Ok(CommandPlan::Ready(labeled_document(body, String::from_str("Echo"))))
        },
        CommandKind::Github => {
            let url = resolve_url(kind, args);
            Ok(CommandPlan::NeedsFetch { url, label: String::from_str("GitHub") })
        },
        CommandKind::Fabric => {
            let url = resolve_url(kind, args);
            Ok(CommandPlan::NeedsFetch { url, label: String::from_str("Fabric") })
        },
        CommandKind::Pypi => {
            let url = resolve_url(kind, args);
            let package = join(args, "-");
            Ok(CommandPlan::NeedsRegistryFetch { url, package })
        },
        CommandKind::PickOne => {
            let sel = join(args, " ");
            let ok = str_eq(sel.as_str(), "option-1") || str_eq(sel.as_str(), "option-2")
                || str_eq(sel.as_str(), "option-3");
            if ok {
                let body = String::from_str("You chose ").concat(sel.as_str()).concat(".");
                let label = String::from_str("Pick One: ").concat(sel.as_str());
                Ok(CommandPlan::Ready(labeled_document(body, label)))
            } else {
                Err(CommandError::InvalidOption(sel))
            }
        },
    }
}

/// Every command rejects an empty argument list with a validation error:
/// the invocation fails as a command error, it never becomes content.
pub proof fn lemma_empty_arguments_rejected(
    name: Seq<char>,
    argsv: Seq<Seq<char>>,
    r: Result<CommandPlan, CommandError>,
)
    requires
        plan_matches(name, argsv, r),
        argsv.len() == 0,
    ensures
        r is Err,
        r matches Err(e) ==> is_validation_error(e),
{
}

} // verus!
