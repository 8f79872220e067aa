use crate::error::ConfigError;
use vstd::prelude::*;

verus! {

/// `{directory}/{prefix}.toml`: where the base table is read from.
pub open spec fn base_path_of(directory: Seq<char>, prefix: Seq<char>) -> Seq<char> {
    directory + seq!['/'] + prefix + seq!['.', 't', 'o', 'm', 'l']
}

/// `{directory}/{prefix}-{environment}.toml`: where the overlay table is read from.
pub open spec fn overlay_path_of(directory: Seq<char>, prefix: Seq<char>, environment: Seq<char>) -> Seq<char> {
    directory + seq!['/'] + prefix + seq!['-'] + environment + seq!['.', 't', 'o', 'm', 'l']
}

/// The path of the base file.
pub fn base_path(directory: &str, prefix: &str) -> (r: String)
    ensures
        r@ == base_path_of(directory@, prefix@),
{
    proof {
        reveal_strlit("/");
        reveal_strlit(".toml");
    }
    let mut p = String::from_str(directory);
    p.append("/");
    p.append(prefix);
    p.append(".toml");
    assert(p@ =~= base_path_of(directory@, prefix@));
    p
}

/// The path of the overlay file for `environment`.
pub fn overlay_path(directory: &str, prefix: &str, environment: &str) -> (r: String)
    ensures
        r@ == overlay_path_of(directory@, prefix@, environment@),
{
    proof {
        reveal_strlit("/");
        reveal_strlit("-");
        reveal_strlit(".toml");
    }
    let mut p = String::from_str(directory);
    p.append("/");
    p.append(prefix);
    p.append("-");
    p.append(environment);
    p.append(".toml");
    assert(p@ =~= overlay_path_of(directory@, prefix@, environment@));
    p
}

/// The files that constructing a resolver reads: always the base file, and
/// the overlay file only where an environment is given.
pub fn source_paths(directory: &str, prefix: &str, environment: Option<&str>) -> (r: (String, Option<String>))
    ensures
        r.0@ == base_path_of(directory@, prefix@),
        r.1 is None <==> environment is None,
        environment matches Some(env) ==> (r.1 matches Some(o) && o@ == overlay_path_of(
            directory@,
            prefix@,
            env@,
        )),
{
    let base = base_path(directory, prefix);
    let overlay = match environment {
        Some(env) => Some(overlay_path(directory, prefix, env)),
        None => None,
    };
    (base, overlay)
}

/// The environment to resolve for, from the value of the selector variable
/// `var_name` (`None` where it is not set). An unset variable means "no
/// overlay", unless `strict` asks for it, in which case it is `EnvVarNotSet`.
pub fn select_environment(var_name: &str, value: Option<String>, strict: bool) -> (r: Result<Option<String>, ConfigError>)
    ensures
        value is Some ==> r == Ok::<Option<String>, ConfigError>(value),
        value is None && !strict ==> r == Ok::<Option<String>, ConfigError>(None),
        value is None && strict ==> (r matches Err(ConfigError::EnvVarNotSet(n)) && n@ == var_name@),
{
    match value {
        Some(v) => Ok(Some(v)),
        None => if strict {
            Err(ConfigError::EnvVarNotSet(var_name.to_owned()))
        } else {
            Ok(None)
        },
    }
}

} // verus!
