//! What the application asks of its environment: the values of environment
//! variables, and the `${VAR}` / `$VAR` references resolved against them.

use vstd::prelude::*;
use crate::domain::services::{env_texts, resolve_refs, EnvResolver};
use crate::strmap::StrMap;

verus! {

/// Environment variables and the references to them.
pub trait EnvPort {
    /// The text with its variable references resolved.
    fn resolve(&self, input: &str) -> String;

    /// Each header value with its variable references resolved.
    fn resolve_headers(&self, headers: &StrMap<String>) -> StrMap<String>;

    /// The value of one variable, if it is set.
    fn get_var(&self, name: &str) -> Option<String>;
}

/// A set of environment variables, taken once and read from then on.
pub struct EnvSnapshot {
    vars: StrMap<String>,
}

impl EnvSnapshot {
    /// The variables of the snapshot.
    pub closed spec fn spec_vars(&self) -> StrMap<String> {
        self.vars
    }

    /// A snapshot of the given variables.
    pub fn new(vars: StrMap<String>) -> (r: Self)
        ensures
            r.spec_vars() == vars,
    {
        EnvSnapshot { vars }
    }
}

impl EnvPort for EnvSnapshot {
    fn resolve(&self, input: &str) -> (r: String)
        ensures
            r@ == resolve_refs(input@, env_texts(self.spec_vars())),
    {
        EnvResolver::resolve(input, &self.vars)
    }

    fn resolve_headers(&self, headers: &StrMap<String>) -> (r: StrMap<String>)
        ensures
            r.model().dom() == headers.model().dom(),
            forall|k: Seq<char>| #[trigger] r.model().contains_key(k)
                ==> r.model()[k]@ == resolve_refs(headers.model()[k]@, env_texts(self.spec_vars())),
    {
        EnvResolver::resolve_headers(headers, &self.vars)
    }

    fn get_var(&self, name: &str) -> (r: Option<String>)
        ensures
            match r {
                Some(v) => self.spec_vars().model().contains_key(name@)
                    && v@ == self.spec_vars().model()[name@]@,
                None => !self.spec_vars().model().contains_key(name@),
            },
    {
        match self.vars.get(name) {
            Some(v) => Some(v.clone()),
            None => None,
        }
    }
}

} // verus!
