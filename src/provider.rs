//! The operations on the registry: listing, adding, removing, switching, and
//! checking the environment against the active provider.
//!
//! Nothing here touches a terminal, a file or the process environment: each
//! operation takes the registry and the environment as values, changes them in
//! memory, and returns what the caller should report, store and export.

use vstd::prelude::*;
use crate::config::{name_view, Config, ConfigView, Provider, ProviderView};
use crate::mask::{
    env_masked, export_lines, export_pair, mask_env_token, mask_token, masked,
};

verus! {

/// The two environment variables that carry the active credentials, as plain values.
pub struct EnvView {
    pub token: Option<Seq<char>>,
    pub url: Option<Seq<char>>,
}

/// The credential variables of an environment; `None` is a variable that is not set.
pub struct Environment {
    pub auth_token: Option<String>,
    pub base_url: Option<String>,
}

impl View for Environment {
    type V = EnvView;

    open spec fn view(&self) -> EnvView {
        EnvView { token: name_view(self.auth_token), url: name_view(self.base_url) }
    }
}

impl Environment {
    pub fn new(auth_token: Option<String>, base_url: Option<String>) -> (r: Environment)
        ensures
            r.auth_token == auth_token,
            r.base_url == base_url,
    {
        Environment { auth_token, base_url }
    }
}

/// One line of a listing, as plain values.
pub struct ListEntryView {
    pub name: Seq<char>,
    pub api_url: Seq<char>,
    pub masked_token: Seq<char>,
    pub active: bool,
}

/// One provider as a listing shows it: the token is masked.
pub struct ListEntry {
    pub name: String,
    pub api_url: String,
    pub masked_token: String,
    pub active: bool,
}

impl View for ListEntry {
    type V = ListEntryView;

    open spec fn view(&self) -> ListEntryView {
        ListEntryView {
            name: self.name@,
            api_url: self.api_url@,
            masked_token: self.masked_token@,
            active: self.active,
        }
    }
}

/// How a provider is listed in registry `c`.
pub open spec fn list_entry(c: ConfigView, p: ProviderView) -> ListEntryView {
    ListEntryView {
        name: p.name,
        api_url: p.api_url,
        masked_token: masked(p.token),
        active: c.current == Some(p.name),
    }
}

/// The listing of a registry: one entry per provider, in registry order.
pub open spec fn listing(c: ConfigView) -> Seq<ListEntryView> {
    c.providers.map_values(|p: ProviderView| list_entry(c, p))
}

/// What an interactive switch did.
pub enum SwitchOutcome {
    /// No provider of that name: nothing changed.
    NotFound,
    /// That provider was already active: nothing changed, nothing to store.
    AlreadyActive,
    /// The provider is now active; the registry must be stored and these
    /// credentials exported.
    Switched(Provider),
}

/// The registry after an interactive switch to `n`.
pub open spec fn switched(c: ConfigView, n: Seq<char>) -> ConfigView {
    if c.has(n) && c.current != Some(n) {
        c.selected(n)
    } else {
        c
    }
}

/// What a switch in eval mode writes: standard output stays valid shell input.
pub struct EvalOutput {
    /// Whether a provider was selected, so that the registry must be stored.
    pub changed: bool,
    /// Lines for standard output.
    pub stdout: Vec<String>,
    /// Lines for the error stream.
    pub stderr: Vec<String>,
}

/// The diagnostic that eval mode writes for an unknown provider.
pub open spec fn eval_error_line(n: Seq<char>) -> Seq<char> {
    "# Error: Service provider '"@ + n + "' does not exist"@
}

/// The prefix of every diagnostic line of eval mode.
pub open spec fn error_marker() -> Seq<char> {
    "# Error:"@
}

/// How the environment relates to the active provider.
#[derive(PartialEq, Eq, Structural, Clone, Copy, Debug)]
pub enum DriftStatus {
    /// No provider is active.
    NoneSelected,
    /// The active name names no stored provider.
    MissingProvider,
    /// Both variables are set and equal the active provider's token and URL.
    Match,
    /// The active provider exists, and a variable is unset or differs.
    Mismatch,
}

/// The drift status of environment `e` against registry `c`.
pub open spec fn drift_status(c: ConfigView, e: EnvView) -> DriftStatus {
    match c.current {
        None => DriftStatus::NoneSelected,
        Some(n) => if !c.has(n) {
            DriftStatus::MissingProvider
        } else if e.token == Some(c.lookup(n).token) && e.url == Some(c.lookup(n).api_url) {
            DriftStatus::Match
        } else {
            DriftStatus::Mismatch
        },
    }
}

/// What the environment check found.
pub struct EnvironmentReport {
    /// The token variable, masked; `None` when it is not set.
    pub token_shown: Option<String>,
    /// The URL variable in full; `None` when it is not set.
    pub url_shown: Option<String>,
    pub status: DriftStatus,
    /// The active provider, when it exists.
    pub active: Option<Provider>,
    /// Whether any provider is stored.
    pub has_providers: bool,
}

fn copy_opt(s: &Option<String>) -> (r: Option<String>)
    ensures
        r == *s,
{
    match s {
        Some(v) => Some(v.clone()),
        None => None,
    }
}

/// The shell function text up to the executable's path.
pub const SHELL_HEAD: &'static str = "cce() {\n    local cce_binary=\"";

/// The shell function text after the executable's path.
pub const SHELL_TAIL: &'static str = r#""
    
    if [[ "$1" == "use" && -n "$2" ]]; then
        local env_output=$("$cce_binary" use "$2" --eval 2>/dev/null)
        if [[ $? -eq 0 && -n "$env_output" ]]; then
            eval "$env_output"
            echo "⚡ Switched to service provider '$2'"
            echo "✅ Environment variables are now active in current terminal"
        else
            "$cce_binary" "$@"
        fi
    else
        "$cce_binary" "$@"
    fi
}"#;

/// The executable name used when the running executable's path is unknown.
pub const DEFAULT_BINARY: &'static str = "cce";

/// The shell function that routes `use` through eval mode, for executable `path`.
pub open spec fn shell_function(path: Seq<char>) -> Seq<char> {
    SHELL_HEAD@ + path + SHELL_TAIL@
}

/// The operations of the command line, on a registry held in memory.
pub struct ProviderManager;

impl ProviderManager {
    /// The providers in registry order, each with its token masked and
    /// marked active when its name is the active one.
    pub fn list_providers(config: &Config) -> (r: Vec<ListEntry>)
        ensures
            r@.map_values(|e: ListEntry| e@) == listing(config@),
    {
        let mut r: Vec<ListEntry> = Vec::new();
        let n = config.providers.len();
        let mut i: usize = 0;
        while i < n
            invariant
                n == config.providers@.len(),
                i <= n,
                r@.len() == i,
                forall|k: int| 0 <= k < i ==> #[trigger] r@[k]@ == list_entry(config@, config@.providers[k]),
            decreases n - i,
        {
            let p = &config.providers[i];
            let active = match &config.current_provider {
                Some(c) => *c == p.name,
                None => false,
            };
            r.push(ListEntry {
                name: p.name.clone(),
                api_url: p.api_url.clone(),
                masked_token: mask_token(p.token.as_str()),
                active,
            });
            i = i + 1;
        }
        assert(r@.map_values(|e: ListEntry| e@) =~= listing(config@));
        r
    }

    /// Stores a provider, replacing one of the same name; returns whether one was replaced.
    pub fn add_provider(config: &mut Config, name: String, api_url: String, token: String) -> (replaced: bool)
        requires
            old(config)@.wf(),
        ensures
            replaced == old(config)@.has(name@),
            final(config)@ == old(config)@.added(ProviderView { name: name@, api_url: api_url@, token: token@ }),
            final(config)@.wf(),
    {
        let replaced = config.contains(name.as_str());
        config.add_provider(name, api_url, token);
        replaced
    }

    /// Deletes the provider named `name`; returns whether there was one.
    /// The active name is kept, even when it names the deleted provider.
    pub fn remove_provider(config: &mut Config, name: &str) -> (removed: bool)
        requires
            old(config)@.wf(),
        ensures
            removed == old(config)@.has(name@),
            final(config)@ == old(config)@.removed(name@),
            final(config)@.wf(),
    {
        let removed = config.contains(name);
        if removed {
            config.remove_provider(name);
        }
        removed
    }

    /// Makes `name` the active provider and sets the credential variables of `env` to its token and URL.
    pub fn use_provider(config: &mut Config, env: &mut Environment, name: &str) -> (r: SwitchOutcome)
        requires
            old(config)@.wf(),
        ensures
            final(config)@ == switched(old(config)@, name@),
            r is NotFound <==> !old(config)@.has(name@),
            r is AlreadyActive <==> old(config)@.has(name@) && old(config)@.current == Some(name@),
            !(r is Switched) ==> *final(env) == *old(env),
            r matches SwitchOutcome::Switched(p) ==> {
                &&& p@ == old(config)@.lookup(name@)
                &&& final(config)@.current == Some(name@)
                &&& final(env)@.token == Some(p@.token)
                &&& final(env)@.url == Some(p@.api_url)
            },
    {
        let pos = config.position(name);
        match pos {
            None => SwitchOutcome::NotFound,
            Some(i) => {
                let is_current = match &config.current_provider {
                    Some(c) => *c == config.providers[i].name,
                    None => false,
                };
                if is_current {
                    SwitchOutcome::AlreadyActive
                } else {
                    let p = config.providers[i].duplicate();
                    config.set_current_provider(name);
                    Self::set_environment_variables(env, &p);
                    SwitchOutcome::Switched(p)
                }
            },
        }
    }

    /// Sets the credential variables of `env` to the token and URL of `provider`.
    pub fn set_environment_variables(env: &mut Environment, provider: &Provider)
        ensures
            final(env)@ == (EnvView { token: Some(provider.token@), url: Some(provider.api_url@) }),
    {
        env.auth_token = Some(provider.token.clone());
        env.base_url = Some(provider.api_url.clone());
    }

    /// Switches without the already-active short cut and without decoration:
    /// on success standard output gets exactly the two export statements, and
    /// for an unknown name it gets nothing while the error stream gets one diagnostic.
    pub fn use_provider_eval(config: &mut Config, name: &str) -> (r: EvalOutput)
        requires
            old(config)@.wf(),
        ensures
            r.changed == old(config)@.has(name@),
            !old(config)@.has(name@) ==> {
                &&& *final(config) == *old(config)
                &&& r.stdout@.len() == 0
                &&& r.stderr@.len() == 1
                &&& r.stderr@[0]@ == eval_error_line(name@)
                &&& r.stderr@[0]@.take(8) == error_marker()
            },
            old(config)@.has(name@) ==> {
                &&& final(config)@ == old(config)@.selected(name@)
                &&& r.stdout@.map_values(|l: String| l@) == export_pair(
                    old(config)@.lookup(name@).token,
                    old(config)@.lookup(name@).api_url,
                )
                &&& r.stderr@.len() == 0
            },
    {
        match config.position(name) {
            None => {
                let mut line = String::from_str("# Error: Service provider '");
                line.append(name);
                line.append("' does not exist");
                proof {
                    reveal_strlit("# Error: Service provider '");
                    reveal_strlit("# Error:");
                    assert(line@.take(8) =~= error_marker());
                }
                let mut stderr: Vec<String> = Vec::new();
                stderr.push(line);
                EvalOutput { changed: false, stdout: Vec::new(), stderr }
            },
            Some(i) => {
                let stdout = export_lines(
                    config.providers[i].token.as_str(),
                    config.providers[i].api_url.as_str(),
                );
                config.set_current_provider(name);
                EvalOutput { changed: true, stdout, stderr: Vec::new() }
            },
        }
    }

    /// Compares the credential variables of `env` with the active provider.
    pub fn check_environment(config: &Config, env: &Environment) -> (r: EnvironmentReport)
        requires
            config@.wf(),
        ensures
            r.status == drift_status(config@, env@),
            name_view(r.token_shown) == match env@.token {
                Some(t) => Some(env_masked(t)),
                None => None::<Seq<char>>,
            },
            name_view(r.url_shown) == env@.url,
            r.has_providers == (config@.providers.len() > 0),
            r.active is Some <==> (r.status is Match || r.status is Mismatch),
            r.active matches Some(p) ==> config@.current matches Some(n) && p@ == config@.lookup(n),
    {
        let token_shown = match &env.auth_token {
            Some(t) => Some(mask_env_token(t.as_str())),
            None => None,
        };
        let url_shown = copy_opt(&env.base_url);
        let has_providers = config.providers.len() > 0;
        let (status, active) = match &config.current_provider {
            None => (DriftStatus::NoneSelected, None),
            Some(n) => match config.position(n.as_str()) {
                None => (DriftStatus::MissingProvider, None),
                Some(i) => {
                    let p = &config.providers[i];
                    let token_ok = match &env.auth_token {
                        Some(t) => *t == p.token,
                        None => false,
                    };
                    let url_ok = match &env.base_url {
                        Some(u) => *u == p.api_url,
                        None => false,
                    };
                    if token_ok && url_ok {
                        (DriftStatus::Match, Some(p.duplicate()))
                    } else {
                        (DriftStatus::Mismatch, Some(p.duplicate()))
                    }
                },
            },
        };
        EnvironmentReport { token_shown, url_shown, status, active, has_providers }
    }

    /// The shell function to evaluate in a shell's startup file, calling the
    /// executable at `exe_path`, or `cce` when its path is unknown.
    pub fn output_shellenv(exe_path: Option<String>) -> (r: String)
        ensures
            r@ == shell_function(
                match exe_path {
                    Some(p) => p@,
                    None => DEFAULT_BINARY@,
                },
            ),
    {
        let mut r = String::from_str(SHELL_HEAD);
        match &exe_path {
            Some(p) => r.append(p.as_str()),
            None => r.append(DEFAULT_BINARY),
        }
        r.append(SHELL_TAIL);
        r
    }
}

} // verus!
