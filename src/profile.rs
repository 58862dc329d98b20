//! Permission profiles and their translation into the sandbox a container runs in.
use vstd::prelude::*;
use vstd::string::StringExecFns;

verus! {

/// The text of each string of a sequence.
pub open spec fn texts(v: Seq<String>) -> Seq<Seq<char>> {
    v.map_values(|s: String| s@)
}

/// The control socket that the built-in profiles let the server read and write.
pub open spec fn control_socket() -> Seq<char> {
    "/var/run/mcp.sock"@
}

/// Network access granted to a container; its presence alone permits networking.
#[derive(Clone, Copy, Debug, PartialEq, Eq, Structural)]
pub struct NetworkPolicy {}

/// What a server may touch: paths it may read, paths it may write, and whether it
/// may use the network at all.
#[derive(Clone, Debug, PartialEq, Eq)]
pub struct PermissionProfile {
    pub read: Vec<String>,
    pub write: Vec<String>,
    pub network: Option<NetworkPolicy>,
}

/// The sandbox a container is created with: paths mounted read-only, paths mounted
/// read-write, and whether it gets a network.
#[derive(Clone, Debug, PartialEq, Eq)]
pub struct ContainerPermissionConfig {
    pub read_only_mounts: Vec<String>,
    pub read_write_mounts: Vec<String>,
    pub network_enabled: bool,
}

/// The readable paths that are not also writable, in their order.
pub open spec fn read_only_paths(read: Seq<Seq<char>>, write: Seq<Seq<char>>) -> Seq<Seq<char>>
    decreases read.len(),
{
    if read.len() == 0 {
        seq![]
    } else {
        let rest = read_only_paths(read.drop_last(), write);
        if write.contains(read.last()) {
            rest
        } else {
            rest.push(read.last())
        }
    }
}

fn control_socket_path() -> (r: String)
    ensures
        r@ == control_socket(),
{
    String::from_str("/var/run/mcp.sock")
}

fn contains_text(v: &Vec<String>, p: &String) -> (r: bool)
    ensures
        r == texts(v@).contains(p@),
{
    let mut k: usize = 0;
    while k < v.len()
        invariant
            k <= v.len(),
            forall|j: int| 0 <= j < k ==> v@[j]@ != p@,
        decreases v.len() - k,
    {
        if v[k] == *p {
            assert(texts(v@)[k as int] == p@);
            return true;
        }
        k = k + 1;
    }
    proof {
        if texts(v@).contains(p@) {
            let j = choose|j: int| 0 <= j < texts(v@).len() && texts(v@)[j] == p@;
            assert(v@[j]@ == p@);
        }
    }
    false
}

impl PermissionProfile {
    /// The profile for stream-piped servers: the control socket only, no network.
    pub fn builtin_stdio_profile() -> (r: PermissionProfile)
        ensures
            texts(r.read@) == seq![control_socket()],
            texts(r.write@) == seq![control_socket()],
            r.network.is_none(),
    {
        let r = PermissionProfile {
            read: vec![control_socket_path()],
            write: vec![control_socket_path()],
            network: None,
        };
        assert(texts(r.read@) =~= seq![control_socket()]);
        assert(texts(r.write@) =~= seq![control_socket()]);
        r
    }

    /// The profile for network-exposed servers: the control socket, and the network.
    pub fn builtin_network_profile() -> (r: PermissionProfile)
        ensures
            texts(r.read@) == seq![control_socket()],
            texts(r.write@) == seq![control_socket()],
            r.network == Some(NetworkPolicy {}),
    {
        let r = PermissionProfile {
            read: vec![control_socket_path()],
            write: vec![control_socket_path()],
            network: Some(NetworkPolicy {}),
        };
        assert(texts(r.read@) =~= seq![control_socket()]);
        assert(texts(r.write@) =~= seq![control_socket()]);
        r
    }

    /// The sandbox this profile asks for: writable paths are mounted read-write, the
    /// other readable paths read-only, and the network is on exactly when a policy is
    /// present.
    pub fn to_container_config(&self) -> (r: ContainerPermissionConfig)
        ensures
            texts(r.read_only_mounts@) == read_only_paths(texts(self.read@), texts(self.write@)),
            texts(r.read_write_mounts@) == texts(self.write@),
            r.network_enabled == self.network.is_some(),
    {
        let ghost rv = texts(self.read@);
        let ghost wv = texts(self.write@);
        let mut read_only: Vec<String> = Vec::new();
        let mut i: usize = 0;
        while i < self.read.len()
            invariant
                i <= self.read.len(),
                rv == texts(self.read@),
                wv == texts(self.write@),
                texts(read_only@) == read_only_paths(rv.take(i as int), wv),
            decreases self.read.len() - i,
        {
            assert(rv.take(i + 1).drop_last() =~= rv.take(i as int));
            assert(rv.take(i + 1).last() == self.read@[i as int]@);
            if !contains_text(&self.write, &self.read[i]) {
                let p = self.read[i].clone();
                read_only.push(p);
                assert(texts(read_only@) =~= read_only_paths(rv.take(i as int), wv).push(p@));
            }
            i = i + 1;
        }
        assert(rv.take(self.read.len() as int) =~= rv);
        let mut read_write: Vec<String> = Vec::new();
        let mut j: usize = 0;
        while j < self.write.len()
            invariant
                j <= self.write.len(),
                wv == texts(self.write@),
                texts(read_write@) == wv.take(j as int),
            decreases self.write.len() - j,
        {
            let p = self.write[j].clone();
            let ghost before = read_write@;
            read_write.push(p);
            assert(texts(read_write@) =~= texts(before).push(p@));
            assert(wv.take(j + 1) =~= wv.take(j as int).push(p@));
            j = j + 1;
        }
        assert(wv.take(self.write.len() as int) =~= wv);
        ContainerPermissionConfig {
            read_only_mounts: read_only,
            read_write_mounts: read_write,
            network_enabled: self.network.is_some(),
        }
    }
}

} // verus!
