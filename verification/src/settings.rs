//! The bots' configuration: roles, the users that hold them, the printer and
//! the bot account.

use vstd::prelude::*;
use crate::text::{parse_integer, parsed_integer};

verus! {

/// Something that is found by its name.
pub trait Named {
    /// The name.
    spec fn name_view(&self) -> Seq<char>;

    /// The name.
    fn name(&self) -> (r: &String)
        ensures
            r@ == self.name_view(),
    ;
}

/// What the users of a role may do.
#[derive(Clone, Debug, PartialEq, Eq)]
pub struct Role {
    pub name: String,
    /// May see the list and the categories.
    pub read: bool,
    /// May add to the list.
    pub write: bool,
    /// May have the list printed.
    pub print: bool,
}

impl Named for Role {
    open spec fn name_view(&self) -> Seq<char> {
        self.name@
    }

    fn name(&self) -> (r: &String) {
        &self.name
    }
}

/// A chat account and the name of its role.
#[derive(Clone, Debug, PartialEq, Eq)]
pub struct User {
    /// The account's number, in decimal.
    pub id: String,
    pub role: String,
}

/// The bot's account.
#[derive(Clone, Debug)]
pub struct Bot {
    pub token: String,
}

/// The serial port of the printer.
#[derive(Clone, Debug)]
pub struct Printer {
    pub path: String,
    pub baud_rate: u32,
}

/// The whole configuration, with roles of type `R`.
#[derive(Clone, Debug)]
pub struct Settings<R> {
    pub roles: Vec<R>,
    pub users: Vec<User>,
    pub printer: Printer,
    pub bot: Bot,
}

/// Whether the user's number reads as `id`.
pub open spec fn reads_as(user: User, id: i64) -> bool {
    parsed_integer(user.id@) == Some(id)
}

/// Whether none of the first `n` users has a number that reads as `id`.
pub open spec fn no_user_before(users: Seq<User>, id: i64, n: int) -> bool {
    forall|k: int| 0 <= k < n && k < users.len() ==> !reads_as(#[trigger] users[k], id)
}

/// Whether `i` is the place of the first user whose number reads as `id`.
pub open spec fn is_first_user(users: Seq<User>, id: i64, i: int) -> bool {
    0 <= i < users.len() && reads_as(users[i], id) && no_user_before(users, id, i)
}

/// Whether a search for `id` meets only numbers that can be read: every
/// user up to and including the first with that number has an integer for
/// its number.
pub open spec fn search_is_clean(users: Seq<User>, id: i64) -> bool {
    forall|j: int|
        0 <= j < users.len() && no_user_before(users, id, j) ==> parsed_integer(
            (#[trigger] users[j]).id@,
        ) is Some
}

/// Whether none of the first `n` roles is called `name`.
pub open spec fn no_role_before<R: Named>(roles: Seq<R>, name: Seq<char>, n: int) -> bool {
    forall|k: int| 0 <= k < n && k < roles.len() ==> (#[trigger] roles[k]).name_view() != name
}

/// Whether `j` is the place of the first role called `name`.
pub open spec fn is_first_role<R: Named>(roles: Seq<R>, name: Seq<char>, j: int) -> bool {
    0 <= j < roles.len() && roles[j].name_view() == name && no_role_before(roles, name, j)
}

impl<R: Named> Settings<R> {
    /// Whether a search for the user `id` meets only numbers that can be
    /// read.
    pub fn can_search(&self, id: i64) -> (r: bool)
        ensures
            r == search_is_clean(self.users@, id),
    {
        let mut j: usize = 0;
        while j < self.users.len()
            invariant
                j <= self.users.len(),
                no_user_before(self.users@, id, j as int),
                forall|k: int|
                    0 <= k < j ==> parsed_integer((#[trigger] self.users@[k]).id@) is Some,
            decreases self.users.len() - j,
        {
            match parse_integer(self.users[j].id.as_str()) {
                Some(number) => {
                    if number == id {
                        assert forall|m: int|
                            0 <= m < self.users@.len() && no_user_before(
                                self.users@,
                                id,
                                m,
                            ) implies parsed_integer((#[trigger] self.users@[m]).id@) is Some by {
                            if m > j {
                                assert(reads_as(self.users@[j as int], id));
                            }
                        }
                        return true;
                    }
                },
                None => {
                    return false;
                },
            }
            j += 1;
        }
        true
    }

    /// The first user whose number is `id`.
    pub fn get_user(&self, id: i64) -> (r: Option<&User>)
        requires
            search_is_clean(self.users@, id),
        ensures
            r matches Some(user) ==> exists|i: int|
                is_first_user(self.users@, id, i) && *user == self.users@[i],
            r is None ==> no_user_before(self.users@, id, self.users@.len() as int),
    {
        let mut i: usize = 0;
        while i < self.users.len()
            invariant
                i <= self.users.len(),
                search_is_clean(self.users@, id),
                no_user_before(self.users@, id, i as int),
            decreases self.users.len() - i,
        {
            let user = &self.users[i];
            match parse_integer(user.id.as_str()) {
                Some(number) => {
                    if number == id {
                        assert(is_first_user(self.users@, id, i as int));
                        return Some(user);
                    }
                },
                None => {
                    assert(parsed_integer(self.users@[i as int].id@) is Some);
                },
            }
            i += 1;
        }
        None
    }

    /// The role of the user `id`: the first role that has the name which the
    /// first user with that number gives as its role.
    pub fn get_role(&self, id: i64) -> (r: Option<&R>)
        requires
            search_is_clean(self.users@, id),
        ensures
            r matches Some(role) ==> exists|i: int, j: int|
                is_first_user(self.users@, id, i) && is_first_role(
                    self.roles@,
                    self.users@[i].role@,
                    j,
                ) && *role == self.roles@[j],
            r is None ==> no_user_before(self.users@, id, self.users@.len() as int) || exists|
                i: int,
            |
                is_first_user(self.users@, id, i) && no_role_before(
                    self.roles@,
                    self.users@[i].role@,
                    self.roles@.len() as int,
                ),
    {
        match self.get_user(id) {
            Some(user) => {
                let ghost i = choose|i: int|
                    is_first_user(self.users@, id, i) && *user == self.users@[i];
                let mut j: usize = 0;
                while j < self.roles.len()
                    invariant
                        j <= self.roles.len(),
                        is_first_user(self.users@, id, i),
                        *user == self.users@[i],
                        no_role_before(self.roles@, user.role@, j as int),
                    decreases self.roles.len() - j,
                {
                    let role = &self.roles[j];
                    if *role.name() == user.role {
                        assert(is_first_role(self.roles@, self.users@[i].role@, j as int));
                        return Some(role);
                    }
                    j += 1;
                }
                None
            },
            None => None,
        }
    }
}

impl Settings<Role> {
    /// The configuration that a new installation starts with: one role,
    /// `admin`, that may do everything; one user who holds it; no printer;
    /// and a note in place of the bot's token.
    pub fn create_default() -> (r: Settings<Role>)
        ensures
            r.roles@.len() == 1,
            r.roles@[0].name@ == "admin"@,
            r.roles@[0].read && r.roles@[0].write && r.roles@[0].print,
            r.users@.len() == 1,
            r.users@[0].id@ == "228223333"@,
            r.users@[0].role@ == "admin"@,
            r.printer.path@ == "/dev/null"@,
            r.printer.baud_rate == 9600,
            r.bot.token@ == "[YOUR TELEGRAM BOT TOKEN]"@,
    {
        let mut roles: Vec<Role> = Vec::new();
        roles.push(Role { name: String::from_str("admin"), read: true, write: true, print: true });
        let mut users: Vec<User> = Vec::new();
        users.push(User { id: String::from_str("228223333"), role: String::from_str("admin") });
        Settings {
            roles,
            users,
            printer: Printer { path: String::from_str("/dev/null"), baud_rate: 9600 },
            bot: Bot { token: String::from_str("[YOUR TELEGRAM BOT TOKEN]") },
        }
    }
}

} // verus!
