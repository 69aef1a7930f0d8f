//! The typed-resource contract every concrete resource satisfies, and the
//! generic operations written once against it: request-path building and
//! client-side name resolution.

use vstd::prelude::*;

use crate::model::{Customer, Project, Service};
use crate::numfmt::dec_str;
use crate::numfmt::u64_to_string;

verus! {

/// What a concrete resource type declares: the collection path, the JSON
/// envelope keys its single-item and list responses are nested under, and
/// a display name per record. The remote API wraps every payload in an
/// envelope object keyed by resource name, so one generic accessor can
/// serve every resource by asking the type for the right key.
pub trait Resource: Sized {
    /// The display name of this record.
    spec fn name_spec(&self) -> Seq<char>;

    /// The collection path of this resource.
    spec fn path_spec() -> Seq<char>;

    /// The envelope key of a single-item response.
    spec fn single_key_spec() -> Seq<char>;

    /// The envelope key of a list response.
    spec fn list_key_spec() -> Seq<char>;

    fn name(&self) -> (r: &String)
        ensures
            r@ == self.name_spec(),
    ;

    fn path_name() -> (r: &'static str)
        ensures
            r@ == Self::path_spec(),
    ;

    fn single_name() -> (r: &'static str)
        ensures
            r@ == Self::single_key_spec(),
    ;

    fn list_name() -> (r: &'static str)
        ensures
            r@ == Self::list_key_spec(),
    ;
}

/// The query-parameter name that scopes a list request to a parent
/// resource's id.
pub trait ResourceFilter {
    /// The query-parameter name of this filter.
    spec fn filter_key_spec() -> Seq<char>;

    fn filter_name() -> (r: &'static str)
        ensures
            r@ == Self::filter_key_spec(),
    ;
}

impl Resource for Customer {
    open spec fn name_spec(&self) -> Seq<char> {
        self.name@
    }

    open spec fn path_spec() -> Seq<char> {
        "/api/v2/customers"@
    }

    open spec fn single_key_spec() -> Seq<char> {
        "customer"@
    }

    open spec fn list_key_spec() -> Seq<char> {
        "customers"@
    }

    fn name(&self) -> (r: &String) {
        &self.name
    }

    fn path_name() -> (r: &'static str) {
        "/api/v2/customers"
    }

    fn single_name() -> (r: &'static str) {
        "customer"
    }

    fn list_name() -> (r: &'static str) {
        "customers"
    }
}

impl Resource for Project {
    open spec fn name_spec(&self) -> Seq<char> {
        self.name@
    }

    open spec fn path_spec() -> Seq<char> {
        "/api/v2/projects"@
    }

    open spec fn single_key_spec() -> Seq<char> {
        "project"@
    }

    open spec fn list_key_spec() -> Seq<char> {
        "projects"@
    }

    fn name(&self) -> (r: &String) {
        &self.name
    }

    fn path_name() -> (r: &'static str) {
        "/api/v2/projects"
    }

    fn single_name() -> (r: &'static str) {
        "project"
    }

    fn list_name() -> (r: &'static str) {
        "projects"
    }
}

impl Resource for Service {
    open spec fn name_spec(&self) -> Seq<char> {
        self.name@
    }

    open spec fn path_spec() -> Seq<char> {
        "/api/v2/services"@
    }

    open spec fn single_key_spec() -> Seq<char> {
        "service"@
    }

    open spec fn list_key_spec() -> Seq<char> {
        "services"@
    }

    fn name(&self) -> (r: &String) {
        &self.name
    }

    fn path_name() -> (r: &'static str) {
        "/api/v2/services"
    }

    fn single_name() -> (r: &'static str) {
        "service"
    }

    fn list_name() -> (r: &'static str) {
        "services"
    }
}

/// Scopes a project list to one customer.
pub struct CustomersFilter;

impl ResourceFilter for CustomersFilter {
    open spec fn filter_key_spec() -> Seq<char> {
        "filter[customers_id]"@
    }

    fn filter_name() -> (r: &'static str) {
        "filter[customers_id]"
    }
}

/// The first record of `s` whose display name is exactly `name`
/// (case-sensitive), if any.
pub open spec fn first_match<R: Resource>(s: Seq<R>, name: Seq<char>) -> Option<R>
    decreases s.len(),
{
    if s.len() == 0 {
        None
    } else if s[0].name_spec() == name {
        Some(s[0])
    } else {
        first_match(s.drop_first(), name)
    }
}

/// No record matches exactly when `first_match` finds none.
pub proof fn lemma_first_match_none<R: Resource>(s: Seq<R>, name: Seq<char>)
    ensures
        first_match(s, name) is None <==> (forall|i: int|
            0 <= i < s.len() ==> s[i].name_spec() != name),
    decreases s.len(),
{
    if s.len() > 0 {
        lemma_first_match_none(s.drop_first(), name);
        if s[0].name_spec() != name {
            if first_match(s, name) is None {
                assert forall|i: int| 0 <= i < s.len() implies s[i].name_spec() != name by {
                    if i > 0 {
                        assert(s.drop_first()[i - 1] == s[i]);
                    }
                }
            } else {
                let j = choose|j: int|
                    0 <= j < s.drop_first().len() && s.drop_first()[j].name_spec() == name;
                assert(s[j + 1].name_spec() == name);
            }
        }
    }
}

/// When some record matches, `first_match` returns the matching record
/// with the least index: every record before it does not match.
pub proof fn lemma_first_match_found<R: Resource>(s: Seq<R>, name: Seq<char>, i: int)
    requires
        0 <= i < s.len(),
        s[i].name_spec() == name,
        forall|j: int| 0 <= j < i ==> s[j].name_spec() != name,
    ensures
        first_match(s, name) == Some(s[i]),
    decreases s.len(),
{
    if i > 0 {
        lemma_first_match_found(s.drop_first(), name, i - 1);
        assert(forall|j: int|
            0 <= j < i - 1 ==> s.drop_first()[j] == #[trigger] s[j + 1]);
        assert(s.drop_first()[i - 1] == s[i]);
    }
}

/// Scans `resources` in order and hands out the first record whose name
/// equals `name` exactly (case-sensitive), or nothing when none matches.
#[verifier::loop_isolation(false)]
pub fn find_resource_by_name<R: Resource>(resources: Vec<R>, name: &String) -> (r: Option<R>)
    ensures
        r == first_match(resources@, name@),
{
    let ghost all: Seq<R> = resources@;
    let mut rs = resources;
    let mut i: usize = 0;
    while i < rs.len()
        invariant
            rs@ == all,
            0 <= i <= all.len(),
            forall|j: int| 0 <= j < i ==> all[j].name_spec() != name@,
        decreases all.len() - i,
    {
        if rs[i].name().eq(name) {
            proof {
                assert(all[i as int].name_spec() == name@);
                lemma_first_match_found(all, name@, i as int);
            }
            let found = rs.remove(i);
            proof {
                assert(found == all[i as int]);
            }
            return Some(found);
        }
        i += 1;
    }
    proof {
        lemma_first_match_none(all, name@);
    }
    None
}

/// The path that fetches the single record of `R` with the given id: the
/// collection path, a slash, and the id in decimal.
pub fn resource_item_path<R: Resource>(id: u32) -> (r: String)
    ensures
        r@ == R::path_spec() + "/"@ + dec_str(id as nat),
{
    let mut s = String::from_str(R::path_name());
    s.append("/");
    let id_str = u64_to_string(id as u64);
    s.append(id_str.as_str());
    proof {
        assert(s@ =~= R::path_spec() + "/"@ + dec_str(id as nat));
    }
    s
}

/// The display names of the given projects, in order. This is the
/// grouping step of the project listing: one such list per customer.
#[verifier::loop_isolation(false)]
pub fn project_names(projects: Vec<Project>) -> (r: Vec<String>)
    ensures
        r@.len() == projects@.len(),
        forall|j: int| 0 <= j < projects@.len() ==> r@[j]@ == projects@[j].name@,
{
    let mut names: Vec<String> = Vec::new();
    let mut i: usize = 0;
    while i < projects.len()
        invariant
            0 <= i <= projects@.len(),
            names@.len() == i,
            forall|j: int| 0 <= j < i ==> names@[j]@ == projects@[j].name@,
        decreases projects@.len() - i,
    {
        names.push(projects[i].name.clone());
        i += 1;
    }
    names
}

/// The path that lists the records of `R` scoped to one parent id:
/// the collection path followed by `/?<filter key>=<id in decimal>`.
pub fn filtered_list_path<R: Resource, F: ResourceFilter>(parent_id: u32) -> (r: String)
    ensures
        r@ == R::path_spec() + "/?"@ + F::filter_key_spec() + "="@ + dec_str(parent_id as nat),
{
    let mut s = String::from_str(R::path_name());
    s.append("/?");
    s.append(F::filter_name());
    s.append("=");
    let id_str = u64_to_string(parent_id as u64);
    s.append(id_str.as_str());
    proof {
        assert(s@ =~= R::path_spec() + "/?"@ + F::filter_key_spec() + "="@ + dec_str(
            parent_id as nat,
        ));
    }
    s
}

} // verus!
