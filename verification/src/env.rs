//! The environment a child process is given: a curated list of variables,
//! not whatever the host happens to have set.

use vstd::prelude::*;

verus! {

/// A list of variables as pairs of name and value.
pub type Vars = Seq<(Seq<char>, Seq<char>)>;

/// A copy of a list of variables.
fn clone_vars(vars: &Vec<(String, String)>) -> (res: Vec<(String, String)>)
    ensures
        res.deep_view() == vars.deep_view(),
{
    let mut res: Vec<(String, String)> = Vec::new();
    let mut i: usize = 0;
    while i < vars.len()
        invariant
            i <= vars.len(),
            res.len() == i,
            forall|j: int| 0 <= j < i ==> #[trigger] res[j].deep_view() == vars[j].deep_view(),
        decreases vars.len() - i,
    {
        let pair = &vars[i];
        res.push((pair.0.clone(), pair.1.clone()));
        i += 1;
    }
    res
}

/// The variables that are forwarded to every child process.
#[derive(Clone, Debug, PartialEq, Eq)]
pub struct Env {
    vars: Vec<(String, String)>,
}

impl View for Env {
    type V = Vars;

    closed spec fn view(&self) -> Vars {
        self.vars.deep_view()
    }
}

impl Env {
    /// An environment that forwards exactly `vars`, in that order.
    pub fn new(vars: Vec<(String, String)>) -> (res: Env)
        ensures
            res@ == vars.deep_view(),
    {
        Env { vars }
    }

    /// The forwarded variables.
    pub fn explicit_env(&self) -> (res: Vec<(String, String)>)
        ensures
            res.deep_view() == self@,
    {
        clone_vars(&self.vars)
    }
}

} // verus!
