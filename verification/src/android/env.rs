//! The environment of the virtual-device tools: the forwarded variables
//! and the root of the SDK.

use vstd::prelude::*;
use crate::env::Vars;

verus! {

/// What an [`Env`] holds, as sequences.
pub struct EnvView {
    pub sdk_root: Seq<char>,
    pub vars: Vars,
}

/// The forwarded variables together with the SDK root.
#[derive(Clone, Debug, PartialEq, Eq)]
pub struct Env {
    base: crate::env::Env,
    sdk_root: String,
}

impl View for Env {
    type V = EnvView;

    closed spec fn view(&self) -> EnvView {
        EnvView { sdk_root: self.sdk_root@, vars: self.base@ }
    }
}

impl Env {
    /// An environment over `base` whose SDK lives under `sdk_root`.
    pub fn new(base: crate::env::Env, sdk_root: String) -> (res: Env)
        ensures
            res@ == (EnvView { sdk_root: sdk_root@, vars: base@ }),
    {
        Env { base, sdk_root }
    }

    /// The root of the SDK.
    pub fn sdk_root(&self) -> (res: &str)
        ensures
            res@ == self@.sdk_root,
    {
        self.sdk_root.as_str()
    }

    /// The forwarded variables.
    pub fn explicit_env(&self) -> (res: Vec<(String, String)>)
        ensures
            res.deep_view() == self@.vars,
    {
        self.base.explicit_env()
    }
}

} // verus!
