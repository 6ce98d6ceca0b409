//! The decisions of the database worker about users and their emulation
//! networks: registering a user, and checking and recording a new emulation
//! network. Reading and writing the stored map is left to the caller.

use vstd::prelude::*;
use vstd::hash_map::StringHashMap;
use crate::database_new::indradb::indradb_util::Uuid;

verus! {

/// A user as contracts see it: its name and its emulation networks, each with
/// the id of the vertex that stores it.
pub struct UserView {
    pub name: Seq<char>,
    pub emu_nets: Seq<(Seq<char>, Uuid)>,
}

/// The user has an emulation network named `net`.
pub open spec fn has_net(u: UserView, net: Seq<char>) -> bool {
    exists|i: int| 0 <= i < u.emu_nets.len() && #[trigger] u.emu_nets[i].0 == net
}

/// A registered user.
pub struct EmuNetUser {
    name: String,
    emu_nets: Vec<(String, Uuid)>,
}

impl View for EmuNetUser {
    type V = UserView;

    closed spec fn view(&self) -> UserView {
        UserView {
            name: self.name@,
            emu_nets: self.emu_nets@.map_values(|p: (String, Uuid)| (p.0@, p.1)),
        }
    }
}

impl EmuNetUser {
    /// A user with no emulation network.
    pub fn new(name: &str) -> (r: Self)
        ensures
            r@ == (UserView { name: name@, emu_nets: Seq::empty() }),
    {
        let r = EmuNetUser { name: String::from_str(name), emu_nets: Vec::new() };
        assert(r@.emu_nets =~= Seq::<(Seq<char>, Uuid)>::empty());
        r
    }

    /// Whether the user has an emulation network named `net`.
    pub fn emu_net_exist(&self, net: &str) -> (r: bool)
        ensures
            r == has_net(self@, net@),
    {
        let target = String::from_str(net);
        let mut i: usize = 0;
        while i < self.emu_nets.len()
            invariant
                i <= self.emu_nets@.len(),
                target@ == net@,
                forall|j: int| 0 <= j < i ==> self@.emu_nets[j].0 != net@,
            decreases self.emu_nets@.len() - i,
        {
            if self.emu_nets[i].0 == target {
                assert(self@.emu_nets[i as int].0 == net@);
                return true;
            }
            i += 1;
        }
        false
    }

    /// Record emulation network `net`, stored under vertex `id`.
    pub fn add_emu_net(&mut self, net: String, id: Uuid)
        ensures
            final(self)@ == (UserView {
                name: old(self)@.name,
                emu_nets: old(self)@.emu_nets.push((net@, id)),
            }),
    {
        let ghost before = self.emu_nets@;
        self.emu_nets.push((net, id));
        assert(self@.emu_nets =~= before.map_values(|p: (String, Uuid)| (p.0@, p.1)).push(
            (net@, id),
        ));
    }

    fn duplicate(&self) -> (r: Self)
        ensures
            r@ == self@,
    {
        let mut nets: Vec<(String, Uuid)> = Vec::new();
        let mut i: usize = 0;
        while i < self.emu_nets.len()
            invariant
                i <= self.emu_nets@.len(),
                nets@.len() == i,
                forall|j: int|
                    0 <= j < i ==> (#[trigger] nets@[j]).0@ == self.emu_nets@[j].0@ && nets@[j].1
                        == self.emu_nets@[j].1,
            decreases self.emu_nets@.len() - i,
        {
            nets.push((self.emu_nets[i].0.clone(), self.emu_nets[i].1));
            i += 1;
        }
        let r = EmuNetUser { name: self.name.clone(), emu_nets: nets };
        assert(r@.emu_nets =~= self@.emu_nets);
        r
    }
}

/// The registered users, by name.
pub struct UserMap {
    users: StringHashMap<EmuNetUser>,
}

impl View for UserMap {
    type V = Map<Seq<char>, UserView>;

    closed spec fn view(&self) -> Map<Seq<char>, UserView> {
        self.users@.map_values(|u: EmuNetUser| u@)
    }
}

impl UserMap {
    /// No user registered.
    pub fn new() -> (r: Self)
        ensures
            r@ == Map::<Seq<char>, UserView>::empty(),
    {
        let r = UserMap { users: StringHashMap::new() };
        assert(r@ =~= Map::<Seq<char>, UserView>::empty());
        r
    }

    /// Register user `user_id`; refused if the name is taken.
    pub fn register_user(&mut self, user_id: String) -> (r: Result<(), String>)
        ensures
            r is Ok <==> !old(self)@.contains_key(user_id@),
            r is Ok ==> final(self)@ == old(self)@.insert(
                user_id@,
                UserView { name: user_id@, emu_nets: Seq::empty() },
            ),
            r matches Err(m) ==> m@ == "user has already registered"@ && final(self)@ == old(
                self,
            )@,
    {
        if self.users.contains_key(user_id.as_str()) {
            assert(self.users@.contains_key(user_id@));
            return Err(String::from_str("user has already registered"));
        }
        let user = EmuNetUser::new(user_id.as_str());
        let ghost before = self.users@;
        self.users.insert(user_id, user);
        assert(self@ =~= old(self)@.insert(
            user_id@,
            UserView { name: user_id@, emu_nets: Seq::empty() },
        ));
        Ok(())
    }

    /// Check a request to create emulation network `net` for `user`, given
    /// the servers that an allocation of its capacity gave (`None` when the
    /// capacity cannot be met). The allocation is handed back on success.
    pub fn check_create_emu_net<A>(&self, user: &str, net: &str, allocation: Option<A>) -> (r:
        Result<A, String>)
        ensures
            !self@.contains_key(user@) ==> (r matches Err(m) && m@ == "invalid user name"@),
            self@.contains_key(user@) && has_net(self@[user@], net@) ==> (r matches Err(m) && m@
                == "invalid emu-net name"@),
            self@.contains_key(user@) && !has_net(self@[user@], net@) ==> match allocation {
                None => r matches Err(m) && m@ == "invalid capacity"@,
                Some(a) => r == Ok::<A, String>(a),
            },
    {
        match self.users.get(user) {
            None => {
                return Err(String::from_str("invalid user name"));
            },
            Some(u) => {
                if u.emu_net_exist(net) {
                    return Err(String::from_str("invalid emu-net name"));
                }
            },
        }
        match allocation {
            Some(a) => Ok(a),
            None => Err(String::from_str("invalid capacity")),
        }
    }

    /// Record emulation network `net` of `user`, stored under vertex `id`.
    pub fn add_emu_net(&mut self, user: &str, net: String, id: Uuid)
        requires
            old(self)@.contains_key(user@),
        ensures
            final(self)@ == old(self)@.insert(
                user@,
                UserView {
                    name: old(self)@[user@].name,
                    emu_nets: old(self)@[user@].emu_nets.push((net@, id)),
                },
            ),
    {
        let mut updated = self.users.get(user).unwrap().duplicate();
        updated.add_emu_net(net, id);
        let key = String::from_str(user);
        self.users.insert(key, updated);
        assert(self@ =~= old(self)@.insert(
            user@,
            UserView {
                name: old(self)@[user@].name,
                emu_nets: old(self)@[user@].emu_nets.push((net@, id)),
            },
        ));
    }
}

/// The bytes of the id of the vertex that holds the core information of the
/// database: 1, 2, ..., 16.
pub open spec fn core_info_bytes() -> Seq<u8> {
    Seq::new(16, |i: int| (i + 1) as u8)
}

/// The id of the vertex that holds the core information of the database.
pub fn core_info_id() -> (r: Uuid)
    ensures
        r.0@ == core_info_bytes(),
{
    let r = Uuid([1, 2, 3, 4, 5, 6, 7, 8, 9, 10, 11, 12, 13, 14, 15, 16]);
    assert(r.0@ =~= core_info_bytes());
    r
}

/// The answer to an initialisation request, given whether the vertex that
/// holds the core information was created (it already exists otherwise).
pub fn init_outcome(created: bool) -> (r: Result<(), String>)
    ensures
        created <==> r is Ok,
        r matches Err(m) ==> m@ == "database has already been initialized"@,
{
    if created {
        Ok(())
    } else {
        Err(String::from_str("database has already been initialized"))
    }
}

/// A user registered once cannot register again.
pub proof fn lemma_register_twice(m: Map<Seq<char>, UserView>, name: Seq<char>)
    ensures
        m.insert(name, UserView { name, emu_nets: Seq::empty() }).contains_key(name),
{
}

/// Once an emulation network is recorded for a user, asking to create it
/// again is refused.
pub proof fn lemma_recorded_net_exists(u: UserView, net: Seq<char>, id: Uuid)
    ensures
        has_net(UserView { name: u.name, emu_nets: u.emu_nets.push((net, id)) }, net),
{
    let v = UserView { name: u.name, emu_nets: u.emu_nets.push((net, id)) };
    assert(v.emu_nets[u.emu_nets.len() as int].0 == net);
}

/// A freshly registered user has no emulation network, so any name is free.
pub proof fn lemma_new_user_has_no_net(name: Seq<char>, net: Seq<char>)
    ensures
        !has_net(UserView { name, emu_nets: Seq::empty() }, net),
{
}

} // verus!
