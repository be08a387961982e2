//! Whitelisted and OP users, as the server lists them.
use vstd::prelude::*;

verus! {

/// Whitelist file name.
pub const WHITELIST_FILE: &'static str = "whitelist.json";

/// OPs file name.
pub const OPS_FILE: &'static str = "ops.json";

/// The names a list of strings holds.
pub open spec fn names(list: Seq<String>) -> Seq<Seq<char>> {
    list.map_values(|s: String| s@)
}

/// Whitelisted users.
///
/// Includes list of OPs, which are also automatically whitelisted.
#[derive(Debug)]
pub struct Whitelist {
    /// Whitelisted users.
    pub whitelist: Vec<String>,
    /// OPd users.
    pub ops: Vec<String>,
}

impl Whitelist {
    /// Whether `username` is whitelisted: listed as whitelisted user or as OP.
    pub open spec fn spec_is_whitelisted(&self, username: Seq<char>) -> bool {
        names(self.whitelist@).contains(username) || names(self.ops@).contains(username)
    }

    /// Check whether a user is whitelisted.
    pub fn is_whitelisted(&self, username: &str) -> (res: bool)
        ensures
            res == self.spec_is_whitelisted(username@),
    {
        let name = String::from_str(username);
        contains_name(&self.whitelist, &name) || contains_name(&self.ops, &name)
    }

    /// Whitelist of the users of `whitelist.json` and `ops.json`.
    pub fn from_users(whitelist: Vec<WhitelistUser>, ops: Vec<OpUser>) -> (res: Whitelist)
        ensures
            names(res.whitelist@) == whitelist@.map_values(|u: WhitelistUser| u.username@),
            names(res.ops@) == ops@.map_values(|u: OpUser| u.username@),
    {
        let mut whitelist_names: Vec<String> = Vec::new();
        let mut i: usize = 0;
        while i < whitelist.len()
            invariant
                i <= whitelist.len(),
                names(whitelist_names@) =~= whitelist@.subrange(0, i as int).map_values(
                    |u: WhitelistUser| u.username@,
                ),
            decreases whitelist.len() - i,
        {
            let ghost prev = whitelist_names@;
            let name = whitelist[i].username.clone();
            whitelist_names.push(name);
            proof {
                assert(names(whitelist_names@) =~= names(prev).push(whitelist@[i as int].username@));
                assert(whitelist@.subrange(0, i + 1).map_values(|u: WhitelistUser| u.username@)
                    =~= whitelist@.subrange(0, i as int).map_values(|u: WhitelistUser| u.username@).push(
                    whitelist@[i as int].username@,
                ));
            }
            i = i + 1;
        }
        let mut op_names: Vec<String> = Vec::new();
        let mut j: usize = 0;
        while j < ops.len()
            invariant
                j <= ops.len(),
                names(op_names@) =~= ops@.subrange(0, j as int).map_values(|u: OpUser| u.username@),
            decreases ops.len() - j,
        {
            let ghost prev = op_names@;
            let name = ops[j].username.clone();
            op_names.push(name);
            proof {
                assert(names(op_names@) =~= names(prev).push(ops@[j as int].username@));
                assert(ops@.subrange(0, j + 1).map_values(|u: OpUser| u.username@) =~= ops@.subrange(
                    0,
                    j as int,
                ).map_values(|u: OpUser| u.username@).push(ops@[j as int].username@));
            }
            j = j + 1;
        }
        proof {
            assert(whitelist@.subrange(0, whitelist@.len() as int) =~= whitelist@);
            assert(ops@.subrange(0, ops@.len() as int) =~= ops@);
        }
        Whitelist { whitelist: whitelist_names, ops: op_names }
    }
}

impl Default for Whitelist {
    fn default() -> (res: Self)
        ensures
            res.whitelist@.len() == 0,
            res.ops@.len() == 0,
    {
        Whitelist { whitelist: Vec::new(), ops: Vec::new() }
    }
}

/// Whether `list` holds `name`.
fn contains_name(list: &Vec<String>, name: &String) -> (res: bool)
    ensures
        res == names(list@).contains(name@),
{
    let mut i: usize = 0;
    while i < list.len()
        invariant
            i <= list.len(),
            forall|k: int| 0 <= k < i ==> list@[k]@ != name@,
        decreases list.len() - i,
    {
        if list[i] == *name {
            proof {
                assert(names(list@)[i as int] == name@);
            }
            return true;
        }
        i = i + 1;
    }
    proof {
        if names(list@).contains(name@) {
            let k = choose|k: int| 0 <= k < names(list@).len() && names(list@)[k] == name@;
            assert(list@[k]@ == name@);
        }
    }
    false
}

/// A whitelist user.
#[derive(Debug, Clone)]
pub struct WhitelistUser {
    /// Whitelisted username.
    pub username: String,
    /// Whitelisted UUID.
    pub uuid: Option<String>,
}

/// An OP user.
#[derive(Debug, Clone)]
pub struct OpUser {
    /// OP username.
    pub username: String,
    /// OP UUID.
    pub uuid: Option<String>,
    /// OP level.
    pub level: Option<u32>,
    /// Whether OP can bypass player limit.
    pub byapsses_player_limit: Option<bool>,
}

} // verus!
