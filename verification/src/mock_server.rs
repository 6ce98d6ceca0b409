//! The state of a mock of the cluster API: it records the pods that an
//! emulation network was initialised with, gives each a login address in
//! 10.0.0.0/8 in order, and answers delete and query requests against them.

use vstd::prelude::*;
use crate::decimal::{decimal, u64_to_string};

verus! {

/// Dotted-decimal text of an IPv4 address given as a 32-bit number.
pub open spec fn ipv4_text(addr: nat) -> Seq<char> {
    decimal(addr / 16777216) + "."@ + decimal((addr / 65536) % 256) + "."@ + decimal(
        (addr / 256) % 256,
    ) + "."@ + decimal(addr % 256)
}

/// The first login address handed out, 10.0.0.0.
pub open spec fn first_pod_addr() -> nat {
    167772160
}

/// Dotted-decimal text of an IPv4 address, as `Ipv4Addr::to_string` writes it.
pub fn ipv4_to_string(addr: u32) -> (r: String)
    ensures
        r@ == ipv4_text(addr as nat),
{
    let a = u64_to_string((addr / 16777216) as u64);
    let b = u64_to_string(((addr / 65536) % 256) as u64);
    let c = u64_to_string(((addr / 256) % 256) as u64);
    let d = u64_to_string((addr % 256) as u64);
    let s = a.concat(".").concat(b.as_str()).concat(".").concat(c.as_str()).concat(".").concat(
        d.as_str(),
    );
    s
}

/// A pod as a query reports it.
pub struct DeviceInfo {
    pub pod_name: String,
    pub login_ip: String,
    pub username: String,
    pub password: String,
}

/// The texts of a list of names.
pub open spec fn texts(names: Seq<String>) -> Seq<Seq<char>> {
    names.map_values(|s: String| s@)
}

/// The pods after initialisation with `names`: pod `i` gets address
/// 10.0.0.0 + `i`.
pub open spec fn initial_pods(names: Seq<Seq<char>>) -> Seq<(Seq<char>, Seq<char>)> {
    Seq::new(names.len(), |i: int| (names[i], ipv4_text((first_pod_addr() + i) as nat)))
}

/// Every pod is named in `names`.
pub open spec fn all_named(pods: Seq<(Seq<char>, Seq<char>)>, names: Set<Seq<char>>) -> bool {
    forall|i: int| 0 <= i < pods.len() ==> names.contains(#[trigger] pods[i].0)
}

/// Whether deleting with `names` succeeds: there are pods, as many as names,
/// and each is named.
pub open spec fn delete_ok(pods: Seq<(Seq<char>, Seq<char>)>, names: Seq<Seq<char>>) -> bool {
    pods.len() > 0 && pods.len() == names.len() && all_named(pods, names.to_set())
}

/// Whether a query for an initialised network with `names` succeeds: there
/// are pods, as many as distinct names, and each is named.
pub open spec fn query_ok(pods: Seq<(Seq<char>, Seq<char>)>, names: Seq<Seq<char>>) -> bool {
    pods.len() > 0 && pods.len() == names.to_set().len() && all_named(pods, names.to_set())
}

pub struct MockServer {
    pods: Vec<(String, String)>,
}

impl View for MockServer {
    type V = Seq<(Seq<char>, Seq<char>)>;

    closed spec fn view(&self) -> Seq<(Seq<char>, Seq<char>)> {
        self.pods@.map_values(|p: (String, String)| (p.0@, p.1@))
    }
}

fn same_text(a: &String, b: &String) -> (r: bool)
    ensures
        r == (a@ == b@),
{
    *a == *b
}

/// The distinct names among `names`, in the order they first occur.
fn distinct_names(names: &Vec<String>) -> (r: Vec<String>)
    ensures
        texts(r@).no_duplicates(),
        texts(r@).to_set() == texts(names@).to_set(),
{
    let mut uniq: Vec<String> = Vec::new();
    let mut i: usize = 0;
    while i < names.len()
        invariant
            i <= names@.len(),
            texts(uniq@).no_duplicates(),
            texts(uniq@).to_set() == texts(names@).take(i as int).to_set(),
        decreases names@.len() - i,
    {
        let ghost prefix = texts(names@).take(i as int);
        let name = &names[i];
        let found = contains_name(&uniq, name);
        assert(texts(names@).take(i as int + 1) == prefix.push(name@));
        proof {
            prefix.lemma_push_to_set_commute(name@);
        }
        if !found {
            let ghost before = texts(uniq@);
            uniq.push(name.clone());
            assert(texts(uniq@) == before.push(name@));
            proof {
                before.lemma_push_to_set_commute(name@);
            }
            assert(texts(uniq@).no_duplicates()) by {
                assert forall|a: int, b: int|
                    0 <= a < texts(uniq@).len() && 0 <= b < texts(uniq@).len() && a != b implies texts(
                    uniq@,
                )[a] != texts(uniq@)[b] by {
                    if a == before.len() as int {
                        assert(!before.contains(name@));
                        assert(before[b] == texts(uniq@)[b]);
                    } else if b == before.len() as int {
                        assert(!before.contains(name@));
                        assert(before[a] == texts(uniq@)[a]);
                    } else {
                        assert(before[a] == texts(uniq@)[a]);
                        assert(before[b] == texts(uniq@)[b]);
                    }
                }
            }
        } else {
            assert(texts(uniq@).to_set().contains(name@));
            assert(texts(uniq@).to_set() =~= texts(uniq@).to_set().insert(name@));
        }
        i += 1;
    }
    assert(texts(names@).take(i as int) == texts(names@));
    uniq
}

/// Whether some entry of `names` has the text of `name`.
fn contains_name(names: &Vec<String>, name: &String) -> (r: bool)
    ensures
        r == texts(names@).contains(name@),
        r == texts(names@).to_set().contains(name@),
{
    let mut i: usize = 0;
    while i < names.len()
        invariant
            i <= names@.len(),
            forall|j: int| 0 <= j < i ==> texts(names@)[j] != name@,
        decreases names@.len() - i,
    {
        if same_text(&names[i], name) {
            assert(texts(names@)[i as int] == name@);
            return true;
        }
        i += 1;
    }
    false
}

impl MockServer {
    /// A mock with no pods.
    pub fn new() -> (r: Self)
        ensures
            r@ == Seq::<(Seq<char>, Seq<char>)>::empty(),
    {
        let r = MockServer { pods: Vec::new() };
        assert(r@ =~= Seq::<(Seq<char>, Seq<char>)>::empty());
        r
    }

    /// The number of pods recorded.
    pub fn pod_count(&self) -> (r: usize)
        ensures
            r == self@.len(),
    {
        self.pods.len()
    }

    /// Initialise the network with pods `pod_names`; refused while pods are
    /// recorded.
    pub fn init(&mut self, pod_names: Vec<String>) -> (r: bool)
        requires
            old(self)@.len() > 0 || pod_names@.len() < 4127195136,
        ensures
            r == (old(self)@.len() == 0),
            r ==> final(self)@ == initial_pods(texts(pod_names@)),
            !r ==> final(self)@ == old(self)@,
    {
        if self.pods.len() > 0 {
            return false;
        }
        let ghost names = texts(pod_names@);
        let mut ip_addr: u32 = 167772160;
        let mut i: usize = 0;
        while i < pod_names.len()
            invariant
                i <= pod_names@.len() < 4127195136,
                names == texts(pod_names@),
                ip_addr == first_pod_addr() + i,
                self@ == initial_pods(names).take(i as int),
            decreases pod_names@.len() - i,
        {
            let ghost before = self.pods@;
            let ip = ipv4_to_string(ip_addr);
            self.pods.push((pod_names[i].clone(), ip));
            assert(self@ == initial_pods(names).take(i as int + 1)) by {
                assert(self.pods@ == before.push((pod_names@[i as int], ip)));
                assert(initial_pods(names).take(i as int + 1) =~= initial_pods(names).take(
                    i as int,
                ).push(initial_pods(names)[i as int]));
                assert(self@ =~= before.map_values(|p: (String, String)| (p.0@, p.1@)).push(
                    (pod_names@[i as int]@, ip@),
                ));
            }
            ip_addr = ip_addr + 1;
            i += 1;
        }
        assert(initial_pods(names).take(i as int) == initial_pods(names));
        true
    }

    fn all_pods_named(&self, uniq: &Vec<String>) -> (r: bool)
        ensures
            r == all_named(self@, texts(uniq@).to_set()),
    {
        let mut i: usize = 0;
        while i < self.pods.len()
            invariant
                i <= self@.len(),
                self@.len() == self.pods@.len(),
                forall|j: int| 0 <= j < i ==> texts(uniq@).to_set().contains(#[trigger] self@[j].0),
            decreases self@.len() - i,
        {
            if !contains_name(uniq, &self.pods[i].0) {
                assert(self@[i as int].0 == self.pods@[i as int].0@);
                return false;
            }
            assert(self@[i as int].0 == self.pods@[i as int].0@);
            i += 1;
        }
        true
    }

    /// Delete the network: every recorded pod must be named, with as many
    /// names as pods. On success no pod is left.
    pub fn delete(&mut self, pod_names: Vec<String>) -> (r: bool)
        ensures
            r == delete_ok(old(self)@, texts(pod_names@)),
            r ==> pod_names@.len() == old(self)@.len() && old(self)@.len() > 0,
            r ==> forall|i: int|
                0 <= i < old(self)@.len() ==> texts(pod_names@).contains(#[trigger] old(self)@[i].0),
            r ==> final(self)@ == Seq::<(Seq<char>, Seq<char>)>::empty(),
            !r ==> final(self)@ == old(self)@,
    {
        if self.pods.len() == 0 {
            return false;
        }
        if self.pods.len() != pod_names.len() {
            return false;
        }
        let uniq = distinct_names(&pod_names);
        if !self.all_pods_named(&uniq) {
            return false;
        }
        self.pods.clear();
        assert(self@ =~= Seq::<(Seq<char>, Seq<char>)>::empty());
        true
    }

    /// Answer a query. For a network not yet initialised, succeed when no pod
    /// is recorded. For an initialised one, succeed when there are pods, as
    /// many as distinct names, each named; then report every pod with its
    /// login address.
    pub fn query(&self, is_init: bool, pod_names: Vec<String>) -> (r: (bool, Vec<DeviceInfo>))
        ensures
            !is_init ==> r.0 == (self@.len() == 0) && r.1@.len() == 0,
            is_init ==> r.0 == query_ok(self@, texts(pod_names@)),
            is_init && r.0 ==> texts(pod_names@).to_set().len() == self@.len() && self@.len() > 0,
            is_init && r.0 ==> forall|i: int|
                0 <= i < self@.len() ==> texts(pod_names@).contains(#[trigger] self@[i].0),
            is_init && r.0 ==> r.1@.len() == self@.len() && forall|i: int|
                0 <= i < self@.len() ==> {
                    &&& (#[trigger] r.1@[i]).pod_name@ == self@[i].0
                    &&& r.1@[i].login_ip@ == self@[i].1
                    &&& r.1@[i].username@ == "fuck"@
                    &&& r.1@[i].password@ == "fuck"@
                },
            is_init && !r.0 ==> r.1@.len() == 0,
    {
        if !is_init {
            return (self.pods.len() == 0, Vec::new());
        }
        if self.pods.len() == 0 {
            return (false, Vec::new());
        }
        let uniq = distinct_names(&pod_names);
        proof {
            texts(uniq@).unique_seq_to_set();
        }
        if self.pods.len() != uniq.len() || !self.all_pods_named(&uniq) {
            return (false, Vec::new());
        }
        let mut infos: Vec<DeviceInfo> = Vec::new();
        let mut i: usize = 0;
        while i < self.pods.len()
            invariant
                i <= self@.len(),
                self@.len() == self.pods@.len(),
                infos@.len() == i,
                forall|j: int|
                    0 <= j < i ==> {
                        &&& (#[trigger] infos@[j]).pod_name@ == self@[j].0
                        &&& infos@[j].login_ip@ == self@[j].1
                        &&& infos@[j].username@ == "fuck"@
                        &&& infos@[j].password@ == "fuck"@
                    },
            decreases self@.len() - i,
        {
            infos.push(
                DeviceInfo {
                    pod_name: self.pods[i].0.clone(),
                    login_ip: self.pods[i].1.clone(),
                    username: String::from_str("fuck"),
                    password: String::from_str("fuck"),
                },
            );
            i += 1;
        }
        (true, infos)
    }
}

/// A network initialised with distinct pod names answers a query for those
/// names with every pod.
pub proof fn lemma_init_then_query(names: Seq<Seq<char>>)
    requires
        names.len() > 0,
        names.no_duplicates(),
    ensures
        query_ok(initial_pods(names), names),
{
    names.unique_seq_to_set();
    let pods = initial_pods(names);
    assert forall|i: int| 0 <= i < pods.len() implies names.to_set().contains(#[trigger] pods[i].0) by {
        assert(pods[i].0 == names[i]);
    }
}

/// Deleting undoes initialising: a network initialised with some pods can
/// be deleted with the same names, after which it holds no pod, so that a
/// second deletion with those names is refused.
pub proof fn lemma_init_then_delete(names: Seq<Seq<char>>)
    requires
        names.len() > 0,
    ensures
        delete_ok(initial_pods(names), names),
        !delete_ok(Seq::empty(), names),
{
    let pods = initial_pods(names);
    assert forall|i: int| 0 <= i < pods.len() implies names.to_set().contains(#[trigger] pods[i].0) by {
        assert(pods[i].0 == names[i]);
    }
}

/// Deleting succeeds only with one name for each recorded pod, every pod
/// named; so a network initialised with some names refuses a deletion with a
/// different number of names.
pub proof fn lemma_delete_needs_one_name_per_pod(
    pods: Seq<(Seq<char>, Seq<char>)>,
    names: Seq<Seq<char>>,
    init_names: Seq<Seq<char>>,
)
    ensures
        delete_ok(pods, names) ==> names.len() == pods.len() && forall|i: int|
            0 <= i < pods.len() ==> names.contains(#[trigger] pods[i].0),
        names.len() != init_names.len() ==> !delete_ok(initial_pods(init_names), names),
{
    if delete_ok(pods, names) {
        assert forall|i: int| 0 <= i < pods.len() implies names.contains(#[trigger] pods[i].0) by {
            assert(names.to_set().contains(pods[i].0));
        }
    }
}

/// A query of an initialised network succeeds only when there are as many
/// distinct requested names as recorded pods, every pod named; so a network
/// initialised with distinct names refuses a query naming a different number
/// of distinct pods.
pub proof fn lemma_query_needs_one_distinct_name_per_pod(
    pods: Seq<(Seq<char>, Seq<char>)>,
    names: Seq<Seq<char>>,
    init_names: Seq<Seq<char>>,
)
    ensures
        query_ok(pods, names) ==> names.to_set().len() == pods.len() && forall|i: int|
            0 <= i < pods.len() ==> names.contains(#[trigger] pods[i].0),
        init_names.no_duplicates() && names.to_set().len() != init_names.len() ==> !query_ok(
            initial_pods(init_names),
            names,
        ),
{
    if query_ok(pods, names) {
        assert forall|i: int| 0 <= i < pods.len() implies names.contains(#[trigger] pods[i].0) by {
            assert(names.to_set().contains(pods[i].0));
        }
    }
}

/// Deleting or querying a network that holds no pod fails.
pub proof fn lemma_empty_refuses(names: Seq<Seq<char>>)
    ensures
        !delete_ok(Seq::empty(), names),
        !query_ok(Seq::empty(), names),
{
}

} // verus!
