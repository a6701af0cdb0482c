use vstd::prelude::*;

use crate::error::SupervisorError;

verus! {

/// What a registry entry holds, as plain sequences.
pub struct ServiceModel {
    pub id: Seq<char>,
    pub name: Seq<char>,
    pub description: Seq<char>,
    pub ports: Seq<u16>,
    pub script_name: Seq<char>,
}

/// One supervised service: its key, display text, the TCP ports it binds and
/// the script that launches it.
#[derive(Debug)]
pub struct ServiceDef {
    pub id: String,
    pub name: String,
    pub description: String,
    pub ports: Vec<u16>,
    pub script_name: String,
}

impl View for ServiceDef {
    type V = ServiceModel;

    open spec fn view(&self) -> ServiceModel {
        ServiceModel {
            id: self.id@,
            name: self.name@,
            description: self.description@,
            ports: self.ports@,
            script_name: self.script_name@,
        }
    }
}

/// Display data of a service, without its launch script.
#[derive(Clone, Debug, PartialEq, Eq)]
pub struct ServiceInfo {
    pub id: String,
    pub name: String,
    pub description: String,
    pub ports: Vec<u16>,
}

pub open spec fn entry(
    id: &str,
    name: &str,
    description: &str,
    port: u16,
    script_name: &str,
) -> ServiceModel {
    ServiceModel {
        id: id@,
        name: name@,
        description: description@,
        ports: seq![port],
        script_name: script_name@,
    }
}

/// The fixed catalog of services, in its fixed order.
pub open spec fn registry() -> Seq<ServiceModel> {
    seq![
        entry("practiceWeb", "Practice Web", "Practice Manager web frontend", 3000, "practice"),
        entry("practiceApi", "Practice API", "Practice Manager API", 3001, "practice-api"),
        entry("customsUi", "Customs UI", "Customs Manager frontend", 5173, "customs"),
        entry("customsBackend", "Customs Backend", "Customs Manager backend API", 3100, "customs-backend"),
    ]
}

/// The registry's ids are distinct, every entry binds at least one port, and
/// no port belongs to two entries, so liveness is never ambiguous.
pub proof fn registry_well_formed()
    ensures
        forall|i: int, j: int|
            0 <= i < j < registry().len() ==> registry()[i].id != registry()[j].id,
        forall|i: int| 0 <= i < registry().len() ==> registry()[i].ports.len() > 0,
        forall|i: int, j: int, p: u16|
            0 <= i < j < registry().len() && registry()[i].ports.contains(p)
                ==> !registry()[j].ports.contains(p),
{
    reveal_strlit("practiceWeb");
    reveal_strlit("practiceApi");
    reveal_strlit("customsUi");
    reveal_strlit("customsBackend");
    let r = registry();
    assert(r[0].id[8] != r[1].id[8]);
    assert(r[0].id.len() != r[2].id.len());
    assert(r[0].id.len() != r[3].id.len());
    assert(r[1].id.len() != r[2].id.len());
    assert(r[1].id.len() != r[3].id.len());
    assert(r[2].id.len() != r[3].id.len());
    assert forall|i: int, j: int, p: u16|
        0 <= i < j < r.len() && r[i].ports.contains(p) implies !r[j].ports.contains(p) by {
        assert(r[i].ports.contains(p) ==> p == r[i].ports[0]);
        assert(r[j].ports.contains(p) ==> p == r[j].ports[0]);
    }
}

/// Position of the first registry entry whose id is `id`, if any.
pub open spec fn is_first_with_id(id: Seq<char>, i: int) -> bool {
    &&& 0 <= i < registry().len()
    &&& registry()[i].id == id
    &&& forall|j: int| 0 <= j < i ==> registry()[j].id != id
}

pub open spec fn has_id(id: Seq<char>) -> bool {
    exists|i: int| 0 <= i < registry().len() && registry()[i].id == id
}

fn make_entry(id: &str, name: &str, description: &str, port: u16, script_name: &str) -> (r:
    ServiceDef)
    ensures
        r@ == entry(id, name, description, port, script_name),
{
    let ports: Vec<u16> = vec![port];
    assert(ports@ =~= seq![port]);
    ServiceDef {
        id: id.to_owned(),
        name: name.to_owned(),
        description: description.to_owned(),
        ports,
        script_name: script_name.to_owned(),
    }
}

/// The registry as values, one per entry of `registry()`, in its order.
pub fn services() -> (r: Vec<ServiceDef>)
    ensures
        r@.len() == registry().len(),
        forall|i: int| 0 <= i < r@.len() ==> #[trigger] r@[i]@ == registry()[i],
{
    let mut v: Vec<ServiceDef> = Vec::new();
    v.push(make_entry("practiceWeb", "Practice Web", "Practice Manager web frontend", 3000, "practice"));
    v.push(make_entry("practiceApi", "Practice API", "Practice Manager API", 3001, "practice-api"));
    v.push(make_entry("customsUi", "Customs UI", "Customs Manager frontend", 5173, "customs"));
    v.push(
        make_entry(
            "customsBackend",
            "Customs Backend",
            "Customs Manager backend API",
            3100,
            "customs-backend",
        ),
    );
    v
}

/// The registry position of the service with this id.
pub fn service_index(id: &str) -> (r: Option<usize>)
    ensures
        r is None <==> !has_id(id@),
        r matches Some(i) ==> is_first_with_id(id@, i as int),
{
    let all = services();
    let key = id.to_owned();
    let mut i: usize = 0;
    while i < all.len()
        invariant
            all@.len() == registry().len(),
            forall|k: int| 0 <= k < all@.len() ==> #[trigger] all@[k]@ == registry()[k],
            key@ == id@,
            0 <= i <= all@.len(),
            forall|j: int| 0 <= j < i ==> registry()[j].id != id@,
        decreases all@.len() - i,
    {
        assert(all@[i as int]@ == registry()[i as int]);
        if all[i].id == key {
            return Some(i);
        }
        i = i + 1;
    }
    None
}

/// The service with this id, or `NotFound` carrying the id.
pub fn find_service(id: &str) -> (r: Result<ServiceDef, SupervisorError>)
    ensures
        r is Err <==> !has_id(id@),
        r matches Ok(s) ==> exists|i: int| is_first_with_id(id@, i) && s@ == registry()[i],
        r matches Err(e) ==> e matches SupervisorError::NotFound(got) && got@ == id@,
{
    match service_index(id) {
        Some(i) => {
            let mut all = services();
            assert(all@[i as int]@ == registry()[i as int]);
            Ok(all.remove(i))
        },
        None => Err(SupervisorError::NotFound(id.to_owned())),
    }
}

/// Display data of every service, in registry order; no liveness is consulted.
pub fn list_services() -> (r: Vec<ServiceInfo>)
    ensures
        r@.len() == registry().len(),
        forall|i: int|
            0 <= i < r@.len() ==> {
                &&& #[trigger] r@[i].id@ == registry()[i].id
                &&& r@[i].name@ == registry()[i].name
                &&& r@[i].description@ == registry()[i].description
                &&& r@[i].ports@ == registry()[i].ports
            },
{
    let all = services();
    let mut out: Vec<ServiceInfo> = Vec::new();
    let mut i: usize = 0;
    while i < all.len()
        invariant
            all@.len() == registry().len(),
            forall|k: int| 0 <= k < all@.len() ==> #[trigger] all@[k]@ == registry()[k],
            0 <= i <= all@.len(),
            out@.len() == i,
            forall|k: int|
                0 <= k < i ==> {
                    &&& #[trigger] out@[k].id@ == registry()[k].id
                    &&& out@[k].name@ == registry()[k].name
                    &&& out@[k].description@ == registry()[k].description
                    &&& out@[k].ports@ == registry()[k].ports
                },
        decreases all@.len() - i,
    {
        let s = &all[i];
        assert(all@[i as int]@ == registry()[i as int]);
        out.push(
            ServiceInfo {
                id: s.id.clone(),
                name: s.name.clone(),
                description: s.description.clone(),
                ports: s.ports.clone(),
            },
        );
        i = i + 1;
    }
    out
}

} // verus!
