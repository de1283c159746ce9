//! Virtual devices: listing them in a fixed order and launching one by name.

use vstd::prelude::*;
use crate::android::env::Env;
use crate::order::{lemma_name_lt_strict, lemma_name_lt_transitive, name_lt, rank, Rank};
use crate::process::{Command, CommandView, Resolution};

verus! {

/// A virtual device. Its name is its identity.
#[derive(Debug, Clone, PartialEq, Eq, PartialOrd, Ord)]
pub struct Emulator {
    name: String,
}

impl View for Emulator {
    type V = Seq<char>;

    closed spec fn view(&self) -> Seq<char> {
        self.name@
    }
}

/// The command that launches the virtual device called `name` from the SDK
/// under `sdk_root`, with `vars` as its environment.
pub open spec fn launch_command(sdk_root: Seq<char>, vars: crate::env::Vars, name: Seq<char>)
    -> CommandView {
    CommandView {
        program: sdk_root + "/emulator/emulator"@,
        resolution: Resolution::Absolute,
        args: seq!["-avd"@, name],
        env: vars,
    }
}

impl Emulator {
    /// The virtual device called `name`.
    pub fn new(name: String) -> (res: Emulator)
        ensures
            res@ == name@,
    {
        Emulator { name }
    }

    /// The name of the device.
    pub fn name(&self) -> (res: &str)
        ensures
            res@ == self@,
    {
        self.name.as_str()
    }

    /// The device as shown to the operator: its name.
    pub fn display(&self) -> (res: String)
        ensures
            res@ == self@,
    {
        self.name.clone()
    }

    /// The command that launches this device: the emulator binary under the
    /// SDK root, addressed by its path, with the forwarded variables as its
    /// environment. The caller starts it and does not wait for it to end.
    pub fn start(&self, env: &Env) -> (res: Command)
        ensures
            res@ == launch_command(env@.sdk_root, env@.vars, self@),
    {
        let program = String::from_str(env.sdk_root()).concat("/emulator/emulator");
        let res = Command::at_path(program)
            .with_arg(String::from_str("-avd"))
            .with_arg(self.name.clone())
            .with_env_vars(env.explicit_env());
        assert(res@.args =~= seq!["-avd"@, self@]);
        res
    }
}

/// The names of a sequence of devices, in the same order.
pub open spec fn names_of(devices: Seq<Emulator>) -> Seq<Seq<char>> {
    Seq::new(devices.len(), |i: int| devices[i]@)
}

/// Each name comes strictly before every later one.
pub open spec fn strictly_ascending(names: Seq<Seq<char>>) -> bool {
    forall|i: int, j: int| 0 <= i < j < names.len() ==> name_lt(names[i], names[j])
}

/// `listed` is the listing of `found`: the same names, each once, in
/// strictly ascending order.
pub open spec fn is_listing(found: Seq<Seq<char>>, listed: Seq<Seq<char>>) -> bool {
    &&& strictly_ascending(listed)
    &&& forall|name: Seq<char>| listed.contains(name) <==> found.contains(name)
}

/// Two strictly ascending sequences that hold the same names are the same
/// sequence.
pub proof fn lemma_ascending_unique(s: Seq<Seq<char>>, t: Seq<Seq<char>>)
    requires
        strictly_ascending(s),
        strictly_ascending(t),
        forall|name: Seq<char>| s.contains(name) <==> t.contains(name),
    ensures
        s == t,
    decreases s.len(),
{
    if s.len() == 0 {
        if t.len() > 0 {
            assert(t.contains(t[0]));
        }
        assert(s =~= t);
    } else {
        // Each first name occurs in the other sequence. Were both found
        // behind the front there, each would come before the other.
        assert(s.contains(s[0]));
        assert(t.contains(t[0]));
        let j = choose|j: int| 0 <= j < t.len() && t[j] == s[0];
        let i = choose|i: int| 0 <= i < s.len() && s[i] == t[0];
        if j > 0 && i > 0 {
            lemma_name_lt_strict(s[0], t[0]);
        }
        assert(s[0] == t[0]);
        // What follows the first name holds the same names in both, since
        // the first name does not occur again.
        let s1 = s.drop_first();
        let t1 = t.drop_first();
        assert forall|name: Seq<char>| s1.contains(name) <==> t1.contains(name) by {
            if s1.contains(name) {
                let k = choose|k: int| 0 <= k < s1.len() && s1[k] == name;
                lemma_name_lt_strict(s[0], s[k + 1]);
                assert(s.contains(name));
                let m = choose|m: int| 0 <= m < t.len() && t[m] == name;
                assert(t1[m - 1] == name);
            }
            if t1.contains(name) {
                let k = choose|k: int| 0 <= k < t1.len() && t1[k] == name;
                lemma_name_lt_strict(t[0], t[k + 1]);
                assert(t.contains(name));
                let m = choose|m: int| 0 <= m < s.len() && s[m] == name;
                assert(s1[m - 1] == name);
            }
        }
        assert(strictly_ascending(s1)) by {
            assert forall|a: int, b: int| 0 <= a < b < s1.len() implies name_lt(s1[a], s1[b]) by {
                assert(name_lt(s[a + 1], s[b + 1]));
            }
        }
        assert(strictly_ascending(t1)) by {
            assert forall|a: int, b: int| 0 <= a < b < t1.len() implies name_lt(t1[a], t1[b]) by {
                assert(name_lt(t[a + 1], t[b + 1]));
            }
        }
        lemma_ascending_unique(s1, t1);
        assert(s =~= seq![s[0]] + s1);
        assert(t =~= seq![t[0]] + t1);
    }
}

/// The listing does not depend on the order in which the names were found:
/// whenever two finds hold the same names, in any order and however often,
/// their listings are equal.
pub proof fn lemma_listing_ignores_order(
    found_a: Seq<Seq<char>>,
    found_b: Seq<Seq<char>>,
    listed_a: Seq<Seq<char>>,
    listed_b: Seq<Seq<char>>,
)
    requires
        is_listing(found_a, listed_a),
        is_listing(found_b, listed_b),
        forall|name: Seq<char>| found_a.contains(name) <==> found_b.contains(name),
    ensures
        listed_a == listed_b,
{
    lemma_ascending_unique(listed_a, listed_b);
}

/// Where `name` belongs among `devices`: the index of the first device that
/// does not come before it, and whether that device bears the same name.
fn position(devices: &Vec<Emulator>, name: &str) -> (res: (usize, bool))
    requires
        strictly_ascending(names_of(devices@)),
    ensures
        res.0 <= devices.len(),
        forall|q: int| 0 <= q < res.0 ==> name_lt(#[trigger] devices[q]@, name@),
        res.1 ==> res.0 < devices.len() && devices[res.0 as int]@ == name@,
        !res.1 ==> forall|q: int| res.0 <= q < devices.len() ==> name_lt(name@, #[trigger] devices[q]@),
{
    let mut p: usize = 0;
    while p < devices.len()
        invariant
            p <= devices.len(),
            strictly_ascending(names_of(devices@)),
            forall|q: int| 0 <= q < p ==> name_lt(#[trigger] devices[q]@, name@),
        decreases devices.len() - p,
    {
        match rank(devices[p].name(), name) {
            Rank::Before => {
                p += 1;
            },
            Rank::Same => {
                return (p, true);
            },
            Rank::After => {
                proof {
                    let names = names_of(devices@);
                    assert forall|q: int| p <= q < devices.len() implies name_lt(
                        name@,
                        #[trigger] devices[q]@,
                    ) by {
                        if p < q {
                            assert(name_lt(names[p as int], names[q]));
                            lemma_name_lt_transitive(name@, devices[p as int]@, devices[q]@);
                        }
                    }
                }
                return (p, false);
            },
        }
    }
    (p, false)
}

/// A name put where it belongs keeps the order: it goes behind all that
/// come before it and in front of all that it comes before.
proof fn lemma_insert_keeps_ascending(names: Seq<Seq<char>>, p: int, name: Seq<char>)
    requires
        strictly_ascending(names),
        0 <= p <= names.len(),
        forall|q: int| 0 <= q < p ==> name_lt(#[trigger] names[q], name),
        forall|q: int| p <= q < names.len() ==> name_lt(name, #[trigger] names[q]),
    ensures
        strictly_ascending(names.insert(p, name)),
{
    let after = names.insert(p, name);
    assert forall|a: int, b: int| 0 <= a < b < after.len() implies name_lt(after[a], after[b]) by {
        if b < p {
            assert(name_lt(names[a], names[b]));
        } else if b == p {
            assert(name_lt(names[a], name));
        } else if a < p {
            assert(name_lt(names[a], names[b - 1]));
        } else if a == p {
            assert(name_lt(name, names[b - 1]));
        } else {
            assert(name_lt(names[a - 1], names[b - 1]));
        }
    }
}

/// A sequence with one more name, wherever it was put, holds that name and
/// those it held before.
proof fn lemma_insert_adds_one(names: Seq<Seq<char>>, p: int, name: Seq<char>)
    requires
        0 <= p <= names.len(),
    ensures
        forall|x: Seq<char>|
            names.insert(p, name).contains(x) <==> names.contains(x) || x == name,
{
    let after = names.insert(p, name);
    assert forall|x: Seq<char>| after.contains(x) <==> names.contains(x) || x == name by {
        if after.contains(x) && x != name {
            let k = choose|k: int| 0 <= k < after.len() && after[k] == x;
            let k0 = if k < p { k } else { k - 1 };
            assert(names[k0] == x);
        }
        if names.contains(x) {
            let k = choose|k: int| 0 <= k < names.len() && names[k] == x;
            let k1 = if k < p { k } else { k + 1 };
            assert(after[k1] == x);
        }
        if x == name {
            assert(after[p] == x);
        }
    }
}

/// The virtual devices called `names`, each once, in strictly ascending
/// order of name, whatever the order of `names`.
pub fn avd_list(names: Vec<String>) -> (res: Vec<Emulator>)
    ensures
        is_listing(names.deep_view(), names_of(res@)),
{
    let ghost found = names.deep_view();
    let mut out: Vec<Emulator> = Vec::new();
    let mut i: usize = 0;
    while i < names.len()
        invariant
            i <= names.len(),
            found == names.deep_view(),
            strictly_ascending(names_of(out@)),
            forall|name: Seq<char>|
                names_of(out@).contains(name) <==> found.take(i as int).contains(name),
        decreases names.len() - i,
    {
        let name = &names[i];
        let (p, present) = position(&out, name.as_str());
        let ghost before = names_of(out@);
        if !present {
            out.insert(p, Emulator::new(name.clone()));
        }
        proof {
            let after = names_of(out@);
            if present {
                assert(before[p as int] == name@);
                assert(before.contains(name@));
            } else {
                assert(after =~= before.insert(p as int, name@));
                lemma_insert_keeps_ascending(before, p as int, name@);
                lemma_insert_adds_one(before, p as int, name@);
            }
            let prev = found.take(i as int);
            let next = found.take(i + 1);
            assert(next =~= prev.insert(i as int, name@));
            lemma_insert_adds_one(prev, i as int, name@);
            assert forall|x: Seq<char>| after.contains(x) <==> next.contains(x) by {
                assert(next.contains(x) <==> prev.contains(x) || x == name@);
                assert(prev.contains(x) <==> before.contains(x));
            }
        }
        i += 1;
    }
    assert(found.take(i as int) =~= found);
    out
}

} // verus!
