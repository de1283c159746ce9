//! Where an exported app is put and where its installable artifact is
//! looked for.

use vstd::prelude::*;

verus! {

/// What a [`Config`] holds, as sequences of characters.
pub struct ConfigView {
    pub export_dir: Seq<char>,
    pub ipa_old: Seq<char>,
    pub ipa_new: Seq<char>,
}

/// The export directory and the two places where the installable artifact
/// may lie: under the old naming convention and under the new one.
#[derive(Clone, Debug, PartialEq, Eq)]
pub struct Config {
    export_dir: String,
    ipa_old: String,
    ipa_new: String,
}

impl View for Config {
    type V = ConfigView;

    closed spec fn view(&self) -> ConfigView {
        ConfigView { export_dir: self.export_dir@, ipa_old: self.ipa_old@, ipa_new: self.ipa_new@ }
    }
}

/// The artifact to install, given which of the two candidates exist: the old
/// one where it exists, else the new one where that exists, else neither,
/// and then both candidates are handed back.
pub open spec fn ipa_choice(config: ConfigView, old_exists: bool, new_exists: bool) -> Result<
    Seq<char>,
    (Seq<char>, Seq<char>),
> {
    if old_exists {
        Ok(config.ipa_old)
    } else if new_exists {
        Ok(config.ipa_new)
    } else {
        Err((config.ipa_old, config.ipa_new))
    }
}

impl Config {
    /// A configuration that exports to `export_dir` and looks for the
    /// artifact at `ipa_old`, then at `ipa_new`.
    pub fn new(export_dir: String, ipa_old: String, ipa_new: String) -> (res: Config)
        ensures
            res@ == (ConfigView { export_dir: export_dir@, ipa_old: ipa_old@, ipa_new: ipa_new@ }),
    {
        Config { export_dir, ipa_old, ipa_new }
    }

    /// The directory the app is exported to.
    pub fn export_dir(&self) -> (res: &str)
        ensures
            res@ == self@.export_dir,
    {
        self.export_dir.as_str()
    }

    /// The two candidate paths of the artifact: the old one, then the new.
    pub fn ipa_candidates(&self) -> (res: (String, String))
        ensures
            res.0@ == self@.ipa_old,
            res.1@ == self@.ipa_new,
    {
        (self.ipa_old.clone(), self.ipa_new.clone())
    }

    /// The path of the artifact, given which candidates exist. Fails with
    /// both candidates exactly when neither exists.
    pub fn ipa_path(&self, old_exists: bool, new_exists: bool) -> (res: Result<
        String,
        (String, String),
    >)
        ensures
            match ipa_choice(self@, old_exists, new_exists) {
                Ok(path) => res matches Ok(p) && p@ == path,
                Err((old, new)) => res matches Err((o, n)) && o@ == old && n@ == new,
            },
    {
        if old_exists {
            Ok(self.ipa_old.clone())
        } else if new_exists {
            Ok(self.ipa_new.clone())
        } else {
            Err((self.ipa_old.clone(), self.ipa_new.clone()))
        }
    }
}

} // verus!
