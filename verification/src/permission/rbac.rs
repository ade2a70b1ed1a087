//! Roles, and what each of them may do.

use crate::permission::RbacPermission;
use crate::text::str_eq;
use route_recognizer::Router;
use std::collections::HashMap;
use vstd::prelude::*;
use vstd::string::*;
use vstd::utf8::*;

verus! {

broadcast use vstd::std_specs::hash::group_hash_axioms;

/// `route_recognizer::Router`, of which nothing is known but the routes
/// that `router_routes` names.
#[verifier::external_type_specification]
#[verifier::external_body]
#[verifier::reject_recursive_types(T)]
pub struct ExRouter<T>(Router<T>);

/// The routes that were added to `router`, in the order in which they came.
pub uninterp spec fn router_routes(router: Router<()>) -> Seq<Seq<char>>;

/// Whether a router that holds the routes `routes` recognizes `path`.
pub uninterp spec fn route_matches(routes: Seq<Seq<char>>, path: Seq<char>) -> bool;

/// `Router::new`: a router without routes.
#[verifier::external_body]
fn new_router() -> (router: Router<()>)
    ensures
        router_routes(router) == Seq::<Seq<char>>::empty(),
{
    Router::new()
}

/// Whether `text` holds no character U+0000.
pub open spec fn no_nul(text: Seq<char>) -> bool {
    forall|i: int| 0 <= i < text.len() ==> #[trigger] text[i] != '\0'
}

/// Whether the router takes `route`: it is ASCII and holds no U+0000.
pub open spec fn routable(route: Seq<char>) -> bool {
    is_ascii_chars(route) && no_nul(route)
}

/// `Router::add`: the route joins those that the router holds. Routes with
/// characters outside ASCII are left out, because the router cuts a route at
/// byte positions; so are routes with U+0000, because the router counts each
/// character from one below its code.
#[verifier::external_body]
fn add_route(router: &mut Router<()>, route: &str)
    requires
        routable(route@),
    ensures
        router_routes(*final(router)) == router_routes(*old(router)).push(route@),
{
    router.add(route, ())
}

/// `Router::recognize`: whether it finds a route for `path` depends on the
/// routes that the router holds and on `path`. Paths with U+0000 are left
/// out, because the router counts each character from one below its code.
#[verifier::external_body]
fn recognizes(router: &Router<()>, path: &str) -> (found: bool)
    requires
        no_nul(path@),
    ensures
        found == route_matches(router_routes(*router), path@),
{
    router.recognize(path).is_ok()
}

/// A role that users can have.
#[derive(Debug)]
pub struct Role(pub String);

/// A user, by number.
#[derive(Debug, Clone, Copy, PartialEq, Eq, Structural)]
pub struct UserId(pub u64);

/// Which roles each user has, and which routes each role may take. The
/// routers are kept in a list, each with the name of its role; where a name
/// comes again, the later entry is the one that counts.
pub struct RbacManager {
    u2r: HashMap<u64, Vec<Role>>,
    r2p: Vec<(Role, Router<()>)>,
}

/// The routes of the role `role` in `table`: those of its last entry.
pub open spec fn spec_role_routes(table: Seq<(Role, Router<()>)>, role: Seq<char>) -> Option<
    Seq<Seq<char>>,
>
    decreases table.len(),
{
    if table.len() == 0 {
        None
    } else if table.last().0.0@ == role {
        Some(router_routes(table.last().1))
    } else {
        spec_role_routes(table.drop_last(), role)
    }
}

/// The names of `roles`, in their order.
pub open spec fn role_names(roles: Seq<Role>) -> Seq<Seq<char>> {
    Seq::new(roles.len(), |i: int| roles[i].0@)
}

/// The texts of `strings`, in their order.
pub open spec fn route_texts(strings: Seq<String>) -> Seq<Seq<char>> {
    Seq::new(strings.len(), |i: int| strings[i]@)
}

/// Whether the router takes every text of `routes`.
pub open spec fn all_routable(routes: Seq<Seq<char>>) -> bool {
    forall|i: int| 0 <= i < routes.len() ==> routable(#[trigger] routes[i])
}

/// Tells whether `text` holds the character U+0000.
pub fn has_nul(text: &str) -> (found: bool)
    ensures
        found == !no_nul(text@),
{
    let mut found = false;
    for c in it: text.chars()
        invariant
            found == !(forall|i: int| 0 <= i < it.index() ==> #[trigger] text@[i] != '\0'),
            it.seq() == text@,
    {
        found = found || c == '\0';
    }
    found
}

impl RbacManager {
    /// The roles of each user that has any.
    pub closed spec fn spec_users(&self) -> Map<u64, Seq<Seq<char>>> {
        Map::new(
            |user: u64| self.u2r@.contains_key(user),
            |user: u64| role_names(self.u2r@[user]@),
        )
    }

    /// The routes of `role`, where the role is known.
    pub closed spec fn spec_routes(&self, role: Seq<char>) -> Option<Seq<Seq<char>>> {
        spec_role_routes(self.r2p@, role)
    }

    /// Whether `role` may take the route `path`: the role is known, `path`
    /// holds no U+0000, and the routes of the role match `path`.
    pub open spec fn spec_role_allows(&self, role: Seq<char>, path: Seq<char>) -> bool {
        self.spec_routes(role) matches Some(routes) && no_nul(path) && route_matches(
            routes,
            path,
        )
    }

    /// Whether `user` may take the route `path`: the user has a role that
    /// may.
    pub open spec fn spec_user_allows(&self, user: u64, path: Seq<char>) -> bool {
        self.spec_users().contains_key(user) && exists|i: int|
            0 <= i < self.spec_users()[user].len() && self.spec_role_allows(
                #[trigger] self.spec_users()[user][i],
                path,
            )
    }

    /// A manager that knows no user and no role.
    pub fn new() -> (rbac: RbacManager)
        ensures
            rbac.spec_users() == Map::<u64, Seq<Seq<char>>>::empty(),
            forall|role: Seq<char>| rbac.spec_routes(role) is None,
    {
        let rbac = RbacManager { u2r: HashMap::new(), r2p: Vec::new() };
        rbac
    }

    /// Gives `user` the roles `roles`, in the place of those it had.
    pub fn add_user(&mut self, user: UserId, roles: Vec<Role>)
        ensures
            final(self).spec_users() == old(self).spec_users().insert(user.0, role_names(roles@)),
            forall|role: Seq<char>| final(self).spec_routes(role) == old(self).spec_routes(role),
    {
        self.u2r.insert(user.0, roles);
    }

    /// Gives `role` the routes `routes`, in the place of those it had. A
    /// route with a character outside ASCII, or with U+0000, is refused:
    /// then nothing changes, and the answer is `false`.
    pub fn add_role(&mut self, role: Role, routes: &Vec<String>) -> (added: bool)
        ensures
            added == all_routable(route_texts(routes@)),
            final(self).spec_users() == old(self).spec_users(),
            forall|other: Seq<char>|
                #[trigger] final(self).spec_routes(other) == if added && other == role.0@ {
                    Some(route_texts(routes@))
                } else {
                    old(self).spec_routes(other)
                },
    {
        let mut router = new_router();
        let mut i: usize = 0;
        while i < routes.len()
            invariant
                i <= routes.len(),
                router_routes(router) == route_texts(routes@).take(i as int),
                forall|k: int| 0 <= k < i ==> routable(#[trigger] route_texts(routes@)[k]),
            decreases routes.len() - i,
        {
            if !routes[i].as_str().is_ascii() || has_nul(routes[i].as_str()) {
                assert(!routable(route_texts(routes@)[i as int]));
                return false;
            }
            add_route(&mut router, routes[i].as_str());
            i += 1;
        }
        let ghost before = self.r2p@;
        self.r2p.push((role, router));
        proof {
            assert(self.r2p@.drop_last() =~= before);
        }
        true
    }

    /// Whether the role named `role` may take the route `path`. No role may
    /// take a path that holds U+0000.
    pub fn role_allows(&self, role: &str, path: &str) -> (allowed: bool)
        ensures
            allowed == self.spec_role_allows(role@, path@),
    {
        if has_nul(path) {
            return false;
        }
        let mut i: usize = self.r2p.len();
        proof {
            assert(self.r2p@.take(i as int) =~= self.r2p@);
        }
        while i > 0
            invariant
                i <= self.r2p.len(),
                no_nul(path@),
                spec_role_routes(self.r2p@, role@) == spec_role_routes(
                    self.r2p@.take(i as int),
                    role@,
                ),
            decreases i,
        {
            proof {
                let head = self.r2p@.take(i as int);
                assert(head.drop_last() =~= self.r2p@.take(i - 1));
            }
            i -= 1;
            if str_eq(self.r2p[i].0.0.as_str(), role) {
                return recognizes(&self.r2p[i].1, path);
            }
        }
        false
    }

    /// Whether `user` may take the route `path`.
    pub fn user_allows(&self, user: UserId, path: &str) -> (allowed: bool)
        ensures
            allowed == self.spec_user_allows(user.0, path@),
    {
        match self.u2r.get(&user.0) {
            Some(roles) => {
                let mut i: usize = 0;
                while i < roles.len()
                    invariant
                        i <= roles.len(),
                        self.spec_users().contains_key(user.0),
                        self.spec_users()[user.0] == role_names(roles@),
                        forall|k: int|
                            0 <= k < i ==> !self.spec_role_allows(
                                #[trigger] role_names(roles@)[k],
                                path@,
                            ),
                    decreases roles.len() - i,
                {
                    if self.role_allows(roles[i].0.as_str(), path) {
                        assert(self.spec_role_allows(self.spec_users()[user.0][i as int], path@));
                        return true;
                    }
                    i += 1;
                }
                false
            },
            None => false,
        }
    }
}

/// Who can be asked for a permission.
pub trait HasRbacPermission {
    /// Whether `rbac` lets this one do what `p` stands for.
    spec fn spec_has_permission(&self, route: Seq<char>, rbac: &RbacManager) -> bool;

    /// Whether `rbac` lets this one do what `p` stands for.
    fn has_permission<P: RbacPermission>(&self, p: &P, rbac: &RbacManager) -> (allowed: bool)
        ensures
            allowed == self.spec_has_permission(p.spec_rbac(), rbac),
    ;
}

impl HasRbacPermission for Role {
    /// A role may do what one of its routes matches.
    open spec fn spec_has_permission(&self, route: Seq<char>, rbac: &RbacManager) -> bool {
        rbac.spec_role_allows(self.0@, route)
    }

    fn has_permission<P: RbacPermission>(&self, p: &P, rbac: &RbacManager) -> (allowed: bool) {
        let route = p.rbac();
        rbac.role_allows(self.0.as_str(), route.as_str())
    }
}

impl HasRbacPermission for UserId {
    /// A user may do what one of its roles may.
    open spec fn spec_has_permission(&self, route: Seq<char>, rbac: &RbacManager) -> bool {
        rbac.spec_user_allows(self.0, route)
    }

    fn has_permission<P: RbacPermission>(&self, p: &P, rbac: &RbacManager) -> (allowed: bool) {
        let route = p.rbac();
        rbac.user_allows(*self, route.as_str())
    }
}

} // verus!
