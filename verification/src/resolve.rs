//! Binary resolution: from the worktree's settings and executable search
//! result to the concrete command that launches the Sorbet language server.
//!
//! Precedence, first match wins: an explicitly configured path, then a
//! binary named `srb` discovered on the search path; otherwise resolution
//! fails with an actionable error. The launch arguments are chosen once,
//! independently of which path branch fires: the configured argument list
//! verbatim if present, else the built-in default list.

use vstd::prelude::*;
use crate::SorbetExtension;

verus! {

/// Per-worktree override bundle read from the host's settings, already
/// parsed into plain values. `T` is the host's structured-value type for
/// the opaque initialization payload; this module never inspects it.
#[derive(Clone, Debug)]
pub struct ServerSettings<T> {
    pub path: Option<String>,
    pub arguments: Option<Vec<String>>,
    pub initialization_options: Option<T>,
}

/// A resolved server binary: the executable path and its launch arguments.
#[derive(Clone, Debug, PartialEq, Eq)]
pub struct SorbetBinary {
    pub path: String,
    pub args: Option<Vec<String>>,
}

/// The full launch command handed back to the host: executable, arguments
/// and the inherited shell environment.
#[derive(Clone, Debug, PartialEq, Eq)]
pub struct Command {
    pub command: String,
    pub args: Vec<String>,
    pub env: Vec<(String, String)>,
}

/// Mathematical model of the settings fields the resolver reads.
#[verifier::ext_equal]
pub ghost struct SettingsModel {
    pub path: Option<Seq<char>>,
    pub arguments: Option<Seq<Seq<char>>>,
}

/// Mathematical model of a resolved binary.
#[verifier::ext_equal]
pub ghost struct BinaryModel {
    pub path: Seq<char>,
    pub args: Option<Seq<Seq<char>>>,
}

/// Mathematical model of a launch command.
#[verifier::ext_equal]
pub ghost struct CommandModel {
    pub command: Seq<char>,
    pub args: Seq<Seq<char>>,
    pub env: Seq<(Seq<char>, Seq<char>)>,
}

impl<T> View for ServerSettings<T> {
    type V = SettingsModel;

    open spec fn view(&self) -> SettingsModel {
        SettingsModel {
            path: match self.path {
                Some(p) => Some(p@),
                None => None,
            },
            arguments: match self.arguments {
                Some(a) => Some(a.deep_view()),
                None => None,
            },
        }
    }
}

impl View for SorbetBinary {
    type V = BinaryModel;

    open spec fn view(&self) -> BinaryModel {
        BinaryModel { path: self.path@, args: self.args.deep_view() }
    }
}

impl View for Command {
    type V = CommandModel;

    open spec fn view(&self) -> CommandModel {
        CommandModel {
            command: self.command@,
            args: self.args.deep_view(),
            env: self.env.deep_view(),
        }
    }
}

/// The settings model the resolver works from: absent settings degrade to
/// a bundle with nothing configured.
pub open spec fn settings_model<T>(settings: Option<ServerSettings<T>>) -> SettingsModel {
    match settings {
        Some(s) => s@,
        None => SettingsModel { path: None, arguments: None },
    }
}

/// The built-in default launch arguments.
pub open spec fn default_arguments_model() -> Seq<Seq<char>> {
    seq!["tc"@, "--lsp"@, "--enable-experimental-lsp-document-highlight"@]
}

/// The user-facing message when no executable can be resolved.
pub open spec fn install_message() -> Seq<char> {
    "srb gem must be installed manually. Install it with `gem install sorbet`."@
}

/// The name the resolver searches the worktree's executable path for.
pub open spec fn discovered_binary_name() -> Seq<char> {
    "srb"@
}

/// The launch arguments: configured verbatim if present, else the default.
pub open spec fn chosen_arguments(s: SettingsModel) -> Seq<Seq<char>> {
    match s.arguments {
        Some(a) => a,
        None => default_arguments_model(),
    }
}

/// The resolution rule: the configured path wins over discovery, discovery
/// over nothing; with nothing, resolution fails with the install message.
pub open spec fn binary_resolution(s: SettingsModel, which_srb: Option<Seq<char>>) -> Result<
    BinaryModel,
    Seq<char>,
> {
    match s.path {
        Some(p) => Ok(BinaryModel { path: p, args: Some(chosen_arguments(s)) }),
        None => match which_srb {
            Some(p) => Ok(BinaryModel { path: p, args: Some(chosen_arguments(s)) }),
            None => Err(install_message()),
        },
    }
}

/// The command built from a resolved binary and the shell environment.
pub open spec fn command_resolution(
    s: SettingsModel,
    which_srb: Option<Seq<char>>,
    env: Seq<(Seq<char>, Seq<char>)>,
) -> Result<CommandModel, Seq<char>> {
    match binary_resolution(s, which_srb) {
        Ok(b) => Ok(
            CommandModel {
                command: b.path,
                args: match b.args {
                    Some(a) => a,
                    None => Seq::empty(),
                },
                env,
            },
        ),
        Err(e) => Err(e),
    }
}

/// Model of an executable resolution result.
pub open spec fn binary_result_model(r: Result<SorbetBinary, String>) -> Result<
    BinaryModel,
    Seq<char>,
> {
    match r {
        Ok(b) => Ok(b@),
        Err(e) => Err(e@),
    }
}

/// Model of an executable command result.
pub open spec fn command_result_model(r: Result<Command, String>) -> Result<
    CommandModel,
    Seq<char>,
> {
    match r {
        Ok(c) => Ok(c@),
        Err(e) => Err(e@),
    }
}

/// The executable name to hand to the worktree's `which` search.
pub fn server_binary_name() -> (r: &'static str)
    ensures
        r@ == discovered_binary_name(),
{
    "srb"
}

/// The built-in default launch argument list, as owned strings.
fn default_arguments() -> (r: Vec<String>)
    ensures
        r.deep_view() == default_arguments_model(),
{
    let mut args: Vec<String> = Vec::new();
    args.push("tc".to_owned());
    args.push("--lsp".to_owned());
    args.push("--enable-experimental-lsp-document-highlight".to_owned());
    proof {
        assert(args.deep_view() =~= default_arguments_model());
    }
    args
}

impl SorbetExtension {
    /// Resolves the server binary from the worktree's settings (if any)
    /// and the result of searching the worktree for `srb`.
    pub fn language_server_binary<T>(
        &self,
        settings: Option<ServerSettings<T>>,
        which_srb: Option<String>,
    ) -> (r: Result<SorbetBinary, String>)
        ensures
            binary_result_model(r) == binary_resolution(
                settings_model(settings),
                which_srb.deep_view(),
            ),
    {
        let ghost s = settings_model(settings);
        let (path_setting, args_setting): (Option<String>, Option<Vec<String>>) = match settings {
            Some(st) => (st.path, st.arguments),
            None => (None, None),
        };
        let args: Option<Vec<String>> = match args_setting {
            Some(a) => Some(a),
            None => Some(default_arguments()),
        };
        proof {
            assert(args.deep_view() =~~= Some(chosen_arguments(s)));
        }

        if let Some(path) = path_setting {
            return Ok(SorbetBinary { path, args });
        }

        if let Some(path) = which_srb {
            return Ok(SorbetBinary { path, args });
        }

        Err("srb gem must be installed manually. Install it with `gem install sorbet`.".to_owned())
    }

    /// Resolves the full launch command: the resolved binary together with
    /// the shell environment the host obtained for the worktree.
    pub fn language_server_command<T>(
        &self,
        settings: Option<ServerSettings<T>>,
        which_srb: Option<String>,
        env: Vec<(String, String)>,
    ) -> (r: Result<Command, String>)
        ensures
            command_result_model(r) == command_resolution(
                settings_model(settings),
                which_srb.deep_view(),
                env.deep_view(),
            ),
    {
        let binary = match self.language_server_binary(settings, which_srb) {
            Ok(b) => b,
            Err(e) => {
                return Err(e);
            },
        };
        let args: Vec<String> = match binary.args {
            Some(a) => a,
            None => {
                let empty_args: Vec<String> = Vec::new();
                proof {
                    assert(empty_args.deep_view() =~= Seq::<Seq<char>>::empty());
                }
                empty_args
            },
        };
        Ok(Command { command: binary.path, args, env })
    }

    /// The initialization payload for the server: the configured value
    /// unchanged if present, otherwise the host's default value. Always
    /// succeeds.
    pub fn language_server_initialization_options<T>(
        &self,
        settings: Option<ServerSettings<T>>,
        fallback: T,
    ) -> (r: Result<Option<T>, String>)
        ensures
            r is Ok,
            r->Ok_0 == Some(
                match settings {
                    Some(s) => match s.initialization_options {
                        Some(v) => v,
                        None => fallback,
                    },
                    None => fallback,
                },
            ),
    {
        let configured: Option<T> = match settings {
            Some(s) => s.initialization_options,
            None => None,
        };
        let value: T = match configured {
            Some(v) => v,
            None => fallback,
        };
        Ok(Some(value))
    }
}

/// An explicitly configured path wins over discovery: whenever the settings
/// carry a path, resolution succeeds with exactly that path, whatever the
/// executable search would have found.
pub proof fn lemma_configured_path_wins(s: SettingsModel, which_srb: Option<Seq<char>>)
    requires
        s.path is Some,
    ensures
        binary_resolution(s, which_srb) == Ok::<BinaryModel, Seq<char>>(
            BinaryModel { path: s.path->0, args: Some(chosen_arguments(s)) },
        ),
{
}

/// Resolution fails exactly when no path is configured and the search finds
/// nothing; the error is the fixed, non-empty install message.
pub proof fn lemma_resolution_failure(s: SettingsModel, which_srb: Option<Seq<char>>)
    ensures
        binary_resolution(s, which_srb) is Err <==> (s.path is None && which_srb is None),
        binary_resolution(s, which_srb) is Err ==> binary_resolution(s, which_srb)->Err_0
            == install_message(),
        install_message().len() > 0,
{
    reveal_strlit("srb gem must be installed manually. Install it with `gem install sorbet`.");
}

} // verus!
