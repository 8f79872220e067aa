use crate::paths::{base_path_of, overlay_path_of, source_paths};
use vstd::prelude::*;

verus! {

/// Where a configuration is looked for: a directory, a file prefix, and the
/// name of the environment variable that selects the overlay.
pub struct ConfineConfigBuilder {
    config_path: String,
    env_var: String,
    prefix: String,
}

impl ConfineConfigBuilder {
    /// The directory that holds the configuration files.
    pub closed spec fn spec_config_path(&self) -> Seq<char> {
        self.config_path@
    }

    /// The name of the environment selector variable.
    pub closed spec fn spec_env_var(&self) -> Seq<char> {
        self.env_var@
    }

    /// The file name prefix.
    pub closed spec fn spec_prefix(&self) -> Seq<char> {
        self.prefix@
    }

    /// Sets the directory that holds the configuration files.
    pub fn config_path(self, path: String) -> (r: Self)
        ensures
            r.spec_config_path() == path@,
            r.spec_env_var() == self.spec_env_var(),
            r.spec_prefix() == self.spec_prefix(),
    {
        ConfineConfigBuilder { config_path: path, ..self }
    }

    /// Sets the name of the environment selector variable.
    pub fn env_var(self, env_var: String) -> (r: Self)
        ensures
            r.spec_config_path() == self.spec_config_path(),
            r.spec_env_var() == env_var@,
            r.spec_prefix() == self.spec_prefix(),
    {
        ConfineConfigBuilder { env_var, ..self }
    }

    /// Sets the file name prefix.
    pub fn prefix(self, prefix: String) -> (r: Self)
        ensures
            r.spec_config_path() == self.spec_config_path(),
            r.spec_env_var() == self.spec_env_var(),
            r.spec_prefix() == prefix@,
    {
        ConfineConfigBuilder { prefix, ..self }
    }

    /// The name of the environment selector variable.
    pub fn env_var_name(&self) -> (r: &str)
        ensures
            r@ == self.spec_env_var(),
    {
        self.env_var.as_str()
    }

    /// The base file, and the overlay file where `environment` is given.
    pub fn sources(&self, environment: Option<&str>) -> (r: (String, Option<String>))
        ensures
            r.0@ == base_path_of(self.spec_config_path(), self.spec_prefix()),
            r.1 is None <==> environment is None,
            environment matches Some(env) ==> (r.1 matches Some(o) && o@ == overlay_path_of(
                self.spec_config_path(),
                self.spec_prefix(),
                env@,
            )),
    {
        source_paths(self.config_path.as_str(), self.prefix.as_str(), environment)
    }
}

impl Default for ConfineConfigBuilder {
    /// Files `config/application.toml` and `config/application-{env}.toml`,
    /// the environment named by `CONFINE_ENV`.
    fn default() -> (r: Self)
        ensures
            r.spec_config_path() == seq!['c', 'o', 'n', 'f', 'i', 'g'],
            r.spec_env_var() == seq!['C', 'O', 'N', 'F', 'I', 'N', 'E', '_', 'E', 'N', 'V'],
            r.spec_prefix() == seq!['a', 'p', 'p', 'l', 'i', 'c', 'a', 't', 'i', 'o', 'n'],
    {
        proof {
            reveal_strlit("config");
            reveal_strlit("CONFINE_ENV");
            reveal_strlit("application");
        }
        let r = ConfineConfigBuilder {
            config_path: String::from_str("config"),
            env_var: String::from_str("CONFINE_ENV"),
            prefix: String::from_str("application"),
        };
        assert(r.config_path@ =~= seq!['c', 'o', 'n', 'f', 'i', 'g']);
        assert(r.env_var@ =~= seq!['C', 'O', 'N', 'F', 'I', 'N', 'E', '_', 'E', 'N', 'V']);
        assert(r.prefix@ =~= seq!['a', 'p', 'p', 'l', 'i', 'c', 'a', 't', 'i', 'o', 'n']);
        r
    }
}

} // verus!
