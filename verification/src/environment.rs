//! The shared environment provisioned once per deployment before any node
//! starts: the bridge network, the shared volumes, and the JWT secret
//! delivered through a short-lived helper container.
//!
//! Every resource is ensured idempotently: an existence check precedes
//! creation, so initialising the environment again creates no duplicate.

use crate::container::{seq_views, NodeConfig};
use crate::decimal::{dec_int_rep, i64_to_string};
use crate::Error;
use vstd::prelude::*;

verus! {

/// The resources shared by every client container in one deployment.
pub struct SharedEnvironment {
    /// The bridge network all client containers join.
    pub network: String,
    /// The volumes ensured before any node starts.
    pub volumes: Vec<String>,
    /// The volume that carries the shared JWT secret.
    pub secret_volume: String,
}

impl Default for SharedEnvironment {
    /// The standard deployment layout: one bridge network and the data and
    /// secret volumes.
    fn default() -> (e: Self)
        ensures
            e.network@ == "eth_network"@,
            seq_views(e.volumes@) == seq!["reth_data"@, "reth_jwt"@],
            e.secret_volume@ == "reth_jwt"@,
    {
        let mut volumes: Vec<String> = Vec::new();
        volumes.push(String::from_str("reth_data"));
        volumes.push(String::from_str("reth_jwt"));
        proof {
            assert(seq_views(volumes@) =~~= seq!["reth_data"@, "reth_jwt"@]);
        }
        SharedEnvironment {
            network: String::from_str("eth_network"),
            volumes,
            secret_volume: String::from_str("reth_jwt"),
        }
    }
}

/// The driver options the shared volumes are created with.
pub fn shared_volume_options() -> (r: Vec<(String, String)>)
    ensures
        r@.len() == 2,
        r@[0].0@ == "type"@ && r@[0].1@ == "none"@,
        r@[1].0@ == "o"@ && r@[1].1@ == "bind,rw,mode=700"@,
{
    let mut opts: Vec<(String, String)> = Vec::new();
    opts.push((String::from_str("type"), String::from_str("none")));
    opts.push((String::from_str("o"), String::from_str("bind,rw,mode=700")));
    opts
}

/// The shell script the secret-provisioning helper runs: it writes the
/// secret into the mounted volume, then lists and reads the file back, so a
/// zero exit guarantees the bytes are durably visible to later mounts.
pub open spec fn secret_script(jwt: Seq<char>) -> Seq<char> {
    "set -ex && mkdir -p /etc/jwt && echo "@ + jwt
        + " > /etc/jwt/jwt.hex && chmod 644 /etc/jwt/jwt.hex && ls -la /etc/jwt && cat /etc/jwt/jwt.hex"@
}

/// Builds the helper's shell script for the given secret.
pub fn secret_write_command(jwt: &str) -> (r: String)
    ensures
        r@ == secret_script(jwt@),
{
    let mut s = String::from_str("set -ex && mkdir -p /etc/jwt && echo ");
    s.append(jwt);
    s.append(
        " > /etc/jwt/jwt.hex && chmod 644 /etc/jwt/jwt.hex && ls -la /etc/jwt && cat /etc/jwt/jwt.hex",
    );
    s
}

/// The specification of the short-lived helper container that provisions the
/// shared secret: a stock shell image running the write-and-verify script
/// with the secret volume mounted at the write path.
pub fn secret_helper_config(jwt: &str) -> (r: NodeConfig)
    ensures
        r.image@ == "alpine:latest"@,
        r.container_name is None,
        r.platform is None,
        r.user is None,
        seq_views(r.cmd@) == seq!["sh"@, "-c"@, secret_script(jwt@)],
        seq_views(r.binds@) == seq!["reth_jwt:/etc/jwt"@],
        r.network is None,
        r.aliases@.len() == 0,
        !r.privileged,
        !r.restart_unless_stopped,
        r.port_bindings@.len() == 0,
        r.data_volumes@.len() == 0,
        r.exclusive_volumes@.len() == 0,
{
    let mut cmd: Vec<String> = Vec::new();
    cmd.push(String::from_str("sh"));
    cmd.push(String::from_str("-c"));
    cmd.push(secret_write_command(jwt));
    proof {
        assert(seq_views(cmd@) =~~= seq!["sh"@, "-c"@, secret_script(jwt@)]);
    }
    let mut binds: Vec<String> = Vec::new();
    binds.push(String::from_str("reth_jwt:/etc/jwt"));
    proof {
        assert(seq_views(binds@) =~~= seq!["reth_jwt:/etc/jwt"@]);
    }
    NodeConfig {
        image: String::from_str("alpine:latest"),
        container_name: None,
        platform: None,
        user: None,
        cmd,
        binds,
        network: None,
        aliases: Vec::new(),
        privileged: false,
        restart_unless_stopped: false,
        port_bindings: Vec::new(),
        data_volumes: Vec::new(),
        exclusive_volumes: Vec::new(),
    }
}

/// Judges the helper's exit: zero is success, and any other code fails the
/// whole environment initialisation with a container error naming the code.
pub fn helper_exit_result(status_code: i64) -> (r: crate::Result<()>)
    ensures
        r is Ok <==> status_code == 0,
        status_code != 0 ==> (r matches Err(Error::Container(m)) && m@
            == "JWT setup container exited with code "@ + dec_int_rep(status_code as int)),
{
    if status_code == 0 {
        Ok(())
    } else {
        let mut m = String::from_str("JWT setup container exited with code ");
        let digits = i64_to_string(status_code);
        m.append(digits.as_str());
        Err(Error::Container(m))
    }
}

/// The number of occurrences of `name` among `names`.
pub open spec fn occurrences(names: Seq<Seq<char>>, name: Seq<char>) -> nat
    decreases names.len(),
{
    if names.len() == 0 {
        0
    } else {
        (if names[0] == name {
            1nat
        } else {
            0nat
        }) + occurrences(names.skip(1), name)
    }
}

pub proof fn lemma_occurrences_contains(names: Seq<Seq<char>>, name: Seq<char>)
    ensures
        (occurrences(names, name) > 0) <==> names.contains(name),
    decreases names.len(),
{
    if names.len() > 0 {
        lemma_occurrences_contains(names.skip(1), name);
        if names[0] == name {
            assert(names.contains(name));
        } else {
            if names.skip(1).contains(name) {
                let i = choose|i: int|
                    0 <= i < names.skip(1).len() && names.skip(1)[i] == name;
                assert(names[i + 1] == name);
                assert(names.contains(name));
            }
            if names.contains(name) {
                let i = choose|i: int| 0 <= i < names.len() && names[i] == name;
                assert(i >= 1);
                assert(names.skip(1)[i - 1] == name);
                assert(names.skip(1).contains(name));
            }
        }
    }
}

pub proof fn lemma_occurrences_push(names: Seq<Seq<char>>, pushed: Seq<char>, name: Seq<char>)
    ensures
        occurrences(names.push(pushed), name) == occurrences(names, name) + (if pushed == name {
            1nat
        } else {
            0nat
        }),
    decreases names.len(),
{
    let delta: nat = if pushed == name {
        1nat
    } else {
        0nat
    };
    if names.len() == 0 {
        assert(names.push(pushed)[0] == pushed);
        assert(names.push(pushed).skip(1) =~= Seq::<Seq<char>>::empty());
        assert(occurrences(names.push(pushed).skip(1), name) == 0);
        assert(occurrences(names.push(pushed), name) == delta);
        assert(occurrences(names, name) == 0);
    } else {
        assert(names.push(pushed)[0] == names[0]);
        assert(names.push(pushed).skip(1) =~= names.skip(1).push(pushed));
        lemma_occurrences_push(names.skip(1), pushed, name);
        assert(occurrences(names.skip(1).push(pushed), name) == occurrences(names.skip(1), name)
            + delta);
        assert(occurrences(names.push(pushed), name) == (if names[0] == name {
            1nat
        } else {
            0nat
        }) + occurrences(names.skip(1).push(pushed), name));
        assert(occurrences(names, name) == (if names[0] == name {
            1nat
        } else {
            0nat
        }) + occurrences(names.skip(1), name));
    }
}

/// The effect of one idempotent ensure call on the engine's roster of
/// resource names: creation only when the name is absent.
pub open spec fn ensure_transition(names: Seq<Seq<char>>, name: Seq<char>) -> Seq<Seq<char>> {
    if names.contains(name) {
        names
    } else {
        names.push(name)
    }
}

/// `k` successive ensure calls for the same name.
pub open spec fn ensure_many(names: Seq<Seq<char>>, name: Seq<char>, k: nat) -> Seq<Seq<char>>
    decreases k,
{
    if k == 0 {
        names
    } else {
        ensure_transition(ensure_many(names, name, (k - 1) as nat), name)
    }
}

/// A second ensure call for the same name changes nothing: the name is
/// present after the first, so the check-then-create step creates nothing.
pub proof fn lemma_ensure_idempotent(names: Seq<Seq<char>>, name: Seq<char>)
    ensures
        ensure_transition(ensure_transition(names, name), name) == ensure_transition(names, name),
{
    if !names.contains(name) {
        assert(names.push(name)[names.len() as int] == name);
        assert(names.push(name).contains(name));
    }
}

/// However many times the serialized ensure step runs for one name — once or
/// many times over — exactly one resource with that name exists afterwards:
/// repeated environment initialisation creates no duplicate.
pub proof fn lemma_ensure_exactly_once(names: Seq<Seq<char>>, name: Seq<char>, k: nat)
    requires
        occurrences(names, name) <= 1,
        k >= 1,
    ensures
        occurrences(ensure_many(names, name, k), name) == 1,
    decreases k,
{
    if k == 1 {
        assert(ensure_many(names, name, 0) == names);
        assert(ensure_many(names, name, 1) == ensure_transition(names, name));
        lemma_occurrences_contains(names, name);
        if names.contains(name) {
            assert(ensure_transition(names, name) == names);
        } else {
            lemma_occurrences_push(names, name, name);
        }
    } else {
        lemma_ensure_exactly_once(names, name, (k - 1) as nat);
        let prev = ensure_many(names, name, (k - 1) as nat);
        lemma_occurrences_contains(prev, name);
        assert(ensure_many(names, name, k) == prev);
    }
}

/// An order-preserving roster of the resource names known to exist: the
/// executable model of the engine's registry under idempotent ensure calls,
/// which the environment initializer follows for the network and each
/// volume.
pub struct ResourceRegistry {
    names: Vec<String>,
}

impl ResourceRegistry {
    /// The recorded names.
    pub closed spec fn spec_names(&self) -> Seq<Seq<char>> {
        seq_views(self.names@)
    }

    /// An empty roster.
    pub fn new() -> (r: ResourceRegistry)
        ensures
            r.spec_names() == Seq::<Seq<char>>::empty(),
    {
        let r = ResourceRegistry { names: Vec::new() };
        proof {
            assert(r.spec_names() =~= Seq::<Seq<char>>::empty());
        }
        r
    }

    /// Whether `name` is recorded.
    pub fn contains_name(&self, name: &String) -> (r: bool)
        ensures
            r == self.spec_names().contains(name@),
    {
        let mut i: usize = 0;
        while i < self.names.len()
            invariant
                i <= self.names@.len(),
                forall|j: int| 0 <= j < i ==> self.spec_names()[j] != name@,
            decreases self.names@.len() - i,
        {
            if self.names[i] == *name {
                assert(self.spec_names()[i as int] == name@);
                return true;
            }
            i += 1;
        }
        false
    }

    /// The number of times `name` is recorded.
    pub fn count(&self, name: &String) -> (r: usize)
        ensures
            r == occurrences(self.spec_names(), name@),
    {
        let mut i: usize = 0;
        let mut c: usize = 0;
        proof {
            assert(self.spec_names().skip(0) =~= self.spec_names());
        }
        while i < self.names.len()
            invariant
                i <= self.names@.len(),
                c <= i,
                occurrences(self.spec_names(), name@) == c + occurrences(
                    self.spec_names().skip(i as int),
                    name@,
                ),
            decreases self.names@.len() - i,
        {
            proof {
                assert(self.spec_names().skip(i as int)[0] == self.spec_names()[i as int]);
                assert(self.spec_names().skip(i as int).skip(1) =~= self.spec_names().skip(i + 1));
            }
            if self.names[i] == *name {
                c += 1;
            }
            i += 1;
        }
        proof {
            assert(self.spec_names().skip(i as int) =~= Seq::<Seq<char>>::empty());
        }
        c
    }

    /// The idempotent ensure step: records `name` only when it is absent,
    /// and reports whether a creation was needed. Starting from a roster
    /// holding the name at most once, exactly one entry remains afterwards.
    pub fn ensure(&mut self, name: String) -> (created: bool)
        ensures
            final(self).spec_names() == ensure_transition(old(self).spec_names(), name@),
            created == !old(self).spec_names().contains(name@),
            occurrences(old(self).spec_names(), name@) <= 1 ==> occurrences(
                final(self).spec_names(),
                name@,
            ) == 1,
    {
        let exists_already = self.contains_name(&name);
        proof {
            lemma_occurrences_contains(self.spec_names(), name@);
            lemma_occurrences_push(self.spec_names(), name@, name@);
        }
        if exists_already {
            false
        } else {
            let ghost before = self.spec_names();
            self.names.push(name);
            proof {
                assert(self.spec_names() =~= before.push(name@));
            }
            true
        }
    }
}

} // verus!
