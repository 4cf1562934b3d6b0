//! The database that an indexer needs: how its container is set up, and how an indexer
//! is told where to find it.

use vstd::prelude::*;
use vstd::string::*;

verus! {

use super::project::EnvioError;
use crate::kubernetes::{pair_of, pairs};
use crate::text::{chars_of, push_str_chars, string_of};

/// Keeps the identifier of the database's container while it runs.
#[derive(Debug, Clone, PartialEq, Eq)]
pub struct EnvioDocker {
    pub postgres_id: Option<String>,
}

impl Default for EnvioDocker {
    fn default() -> (r: Self)
        ensures
            r.postgres_id is None,
    {
        EnvioDocker { postgres_id: None }
    }
}

impl EnvioDocker {
    pub fn new() -> (r: Self)
        ensures
            r.postgres_id is None,
    {
        EnvioDocker { postgres_id: None }
    }
}

/// The variables that the database's container starts with.
pub open spec fn postgres_settings() -> Seq<(Seq<char>, Seq<char>)> {
    seq![
        ("POSTGRES_USER"@, "postgres"@),
        ("POSTGRES_PASSWORD"@, "postgres"@),
        ("POSTGRES_DB"@, "postgres"@),
    ]
}

/// The variables that tell an indexer where the database is, given the port of the host
/// on which it listens.
pub open spec fn database_variables(port: Seq<char>) -> Seq<(Seq<char>, Seq<char>)> {
    seq![("POSTGRES_HOST"@, "localhost"@), ("POSTGRES_PORT"@, port)] + postgres_settings()
}

/// A variable as a container takes it: its name, an equals sign, and its value.
pub open spec fn assignment(variable: (Seq<char>, Seq<char>)) -> Seq<char> {
    variable.0 + "="@ + variable.1
}

/// The variables that the database's container starts with.
pub fn postgres_environment() -> (r: Vec<(String, String)>)
    ensures
        pairs(r@) == postgres_settings(),
{
    let mut r: Vec<(String, String)> = Vec::new();
    r.push(pair_of("POSTGRES_USER", "postgres"));
    r.push(pair_of("POSTGRES_PASSWORD", "postgres"));
    r.push(pair_of("POSTGRES_DB", "postgres"));
    assert(pairs(r@) =~= postgres_settings());
    r
}

/// The variables that tell an indexer where the database is.
pub fn database_environment(port: &str) -> (r: Vec<(String, String)>)
    ensures
        pairs(r@) == database_variables(port@),
{
    let mut r: Vec<(String, String)> = Vec::new();
    r.push(pair_of("POSTGRES_HOST", "localhost"));
    r.push(pair_of("POSTGRES_PORT", port));
    r.push(pair_of("POSTGRES_USER", "postgres"));
    r.push(pair_of("POSTGRES_PASSWORD", "postgres"));
    r.push(pair_of("POSTGRES_DB", "postgres"));
    assert(pairs(r@) =~= database_variables(port@));
    r
}

/// The variables as a container takes them, in order.
pub fn assignments(variables: &Vec<(String, String)>) -> (r: Vec<String>)
    ensures
        r@.len() == variables@.len(),
        forall|i: int|
            0 <= i < r@.len() ==> (#[trigger] r@[i])@ == assignment(pairs(variables@)[i]),
{
    let mut r: Vec<String> = Vec::new();
    let mut i: usize = 0;
    while i < variables.len()
        invariant
            i <= variables.len(),
            r@.len() == i,
            forall|k: int| 0 <= k < i ==> (#[trigger] r@[k])@ == assignment(pairs(variables@)[k]),
        decreases variables.len() - i,
    {
        let mut text = chars_of(variables[i].0.as_str());
        push_str_chars(&mut text, "=");
        push_str_chars(&mut text, variables[i].1.as_str());
        r.push(string_of(&text));
        i += 1;
    }
    r
}

/// The port of the host on which the database listens: the host port of the first
/// binding of the database's port that names one, as the container's inspection lists
/// them. `bindings` holds the host port of each binding, and is none where the
/// inspection does not list the database's port.
pub fn first_host_port(bindings: Option<Vec<Option<String>>>) -> (r: Result<String, EnvioError>)
    ensures
        match bindings {
            Some(ports) => if ports@.len() > 0 && ports@[0] is Some {
                r is Ok && r->Ok_0 == ports@[0]->0
            } else {
                is_port_missing(r)
            },
            None => is_port_missing(r),
        },
{
    let missing = "Failed to get PostgreSQL container port";
    match bindings {
        Some(mut ports) => {
            if ports.len() == 0 {
                return Err(EnvioError::DockerError(String::from_str(missing)));
            }
            match ports.swap_remove(0) {
                Some(port) => Ok(port),
                None => Err(EnvioError::DockerError(String::from_str(missing))),
            }
        },
        None => Err(EnvioError::DockerError(String::from_str(missing))),
    }
}

/// The outcome reports that the database's port could not be found.
pub open spec fn is_port_missing(r: Result<String, EnvioError>) -> bool {
    r is Err && r->Err_0 is DockerError && r->Err_0->DockerError_0@
        == "Failed to get PostgreSQL container port"@
}

} // verus!
