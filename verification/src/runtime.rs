use vstd::prelude::*;

verus! {

/// The version this runtime announces in its user agent.
pub const PKG_VERSION: &'static str = "0.1.0";

pub open spec fn user_agent_spec() -> Seq<char> {
    "OpenWorkers/"@ + PKG_VERSION@
}

/// The user agent of the runtime: `OpenWorkers/` and the package version.
pub fn user_agent() -> (ua: String)
    ensures
        ua@ == user_agent_spec(),
{
    let mut ua = String::from_str("OpenWorkers/");
    ua.append(PKG_VERSION);
    ua
}

/// The script a worker runs: the module's URL, its source where the host
/// already holds it, and the worker's environment as a JavaScript expression.
#[derive(Debug, Clone)]
pub struct Script {
    pub specifier: String,
    pub code: Option<String>,
    pub env: Option<String>,
}

/// The environment expression handed to the bootstrap: the given one, or
/// `undefined` where the worker has none.
pub open spec fn env_expression(env: Option<Seq<char>>) -> Seq<char> {
    match env {
        Some(e) => e,
        None => "undefined"@,
    }
}

/// `globalThis.bootstrap('<user agent>', <environment>)`
pub open spec fn bootstrap_script_spec(ua: Seq<char>, env: Option<Seq<char>>) -> Seq<char> {
    "globalThis.bootstrap('"@ + ua + "', "@ + env_expression(env) + ")"@
}

/// The bootstrap hands the engine the user agent in quotes and the given
/// environment text exactly as it is, whatever that text is (`{}` included);
/// only a worker without an environment gets `undefined`.
pub proof fn law_bootstrap_passes_environment_verbatim(ua: Seq<char>, env: Seq<char>)
    ensures
        bootstrap_script_spec(ua, Some(env)) == "globalThis.bootstrap('"@ + ua + "', "@ + env
            + ")"@,
        bootstrap_script_spec(ua, None) == "globalThis.bootstrap('"@ + ua + "', undefined)"@,
        bootstrap_script_spec(ua, Some(env)).subrange(
            ("globalThis.bootstrap('"@ + ua + "', "@).len() as int,
            (("globalThis.bootstrap('"@ + ua + "', "@).len() + env.len()) as int,
        ) == env,
{
    reveal_strlit("undefined");
    reveal_strlit("', ");
    reveal_strlit("', undefined)");
    reveal_strlit(")");
    let p = "globalThis.bootstrap('"@ + ua + "', "@;
    assert(p + "undefined"@ + ")"@ =~= "globalThis.bootstrap('"@ + ua + "', undefined)"@);
    assert((p + env + ")"@).subrange(p.len() as int, (p.len() + env.len()) as int) =~= env);
}

impl Script {
    /// The script that bootstraps the engine for this worker.
    pub fn bootstrap_script(&self) -> (s: String)
        ensures
            s@ == bootstrap_script_spec(user_agent_spec(), self.env.deep_view()),
    {
        let mut s = String::from_str("globalThis.bootstrap('");
        let ua = user_agent();
        s.append(ua.as_str());
        s.append("', ");
        match &self.env {
            Some(e) => s.append(e.as_str()),
            None => s.append("undefined"),
        }
        s.append(")");
        s
    }
}

/// The startup snapshot built into the runtime, if the build left one: an
/// empty image means there is none.
pub fn runtime_snapshot(image: &'static [u8]) -> (snapshot: Option<&'static [u8]>)
    ensures
        snapshot is None <==> image@.len() == 0,
        snapshot matches Some(s) ==> s@ == image@,
{
    if image.len() == 0 {
        None
    } else {
        Some(image)
    }
}

} // verus!
