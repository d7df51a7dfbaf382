//! The resource descriptor: the immutable attribute set (service name, host
//! name) attached identically to every exported signal.

use vstd::prelude::*;

verus! {

/// An immutable list of key/value attribute pairs shared by all three
/// providers. Built once per initialization; never mutated afterwards.
pub struct ResourceDescriptor {
    pub attributes: Vec<(String, String)>,
}

impl ResourceDescriptor {
    /// The attributes as a sequence of (key, value) character sequences.
    pub open spec fn attrs(self) -> Seq<(Seq<char>, Seq<char>)> {
        self.attributes@.map(|i: int, p: (String, String)| (p.0@, p.1@))
    }
}

/// The attribute pairs a resource descriptor holds for a given service name
/// and host name: exactly those two attributes, in that order, whatever the
/// strings hold — an empty string is a valid, if unhelpful, value.
pub open spec fn resource_attrs(service_name: Seq<char>, host_name: Seq<char>) -> Seq<
    (Seq<char>, Seq<char>),
> {
    seq![("service.name"@, service_name), ("host.name"@, host_name)]
}

/// The attribute pairs folded into a map, later pairs superseding earlier
/// ones with the same key: how a collection keyed by attribute key holds
/// them.
pub open spec fn attrs_as_map(attrs: Seq<(Seq<char>, Seq<char>)>) -> Map<Seq<char>, Seq<char>>
    decreases attrs.len(),
{
    if attrs.len() == 0 {
        Map::empty()
    } else {
        attrs_as_map(attrs.drop_last()).insert(attrs.last().0, attrs.last().1)
    }
}

/// Relies on `opentelemetry_semantic_conventions::resource::SERVICE_NAME`,
/// whose value is the string "service.name".
#[verifier::external_body]
fn service_name_key() -> (r: String)
    ensures
        r@ == "service.name"@,
{
    opentelemetry_semantic_conventions::resource::SERVICE_NAME.to_string()
}

/// Relies on `opentelemetry_semantic_conventions::resource::HOST_NAME`,
/// whose value is the string "host.name".
#[verifier::external_body]
fn host_name_key() -> (r: String)
    ensures
        r@ == "host.name"@,
{
    opentelemetry_semantic_conventions::resource::HOST_NAME.to_string()
}

/// Builds the resource descriptor for a service name and host name: always
/// exactly the two attributes, never more, never fewer, even for empty
/// inputs. Pure, with no failure mode.
pub fn build_resource_descriptor(service_name: &str, host_name: &str) -> (r: ResourceDescriptor)
    ensures
        r.attrs() == resource_attrs(service_name@, host_name@),
{
    let mut attributes: Vec<(String, String)> = Vec::new();
    attributes.push((service_name_key(), service_name.to_owned()));
    attributes.push((host_name_key(), host_name.to_owned()));
    let r = ResourceDescriptor { attributes };
    proof {
        assert(r.attrs() =~= resource_attrs(service_name@, host_name@));
    }
    r
}

/// Two resource descriptors assembled for identical configuration are
/// attribute-for-attribute equal.
pub proof fn lemma_resource_descriptor_deterministic(
    d1: ResourceDescriptor,
    d2: ResourceDescriptor,
    service_name: Seq<char>,
    host_name: Seq<char>,
)
    requires
        d1.attrs() == resource_attrs(service_name, host_name),
        d2.attrs() == resource_attrs(service_name, host_name),
    ensures
        d1.attrs() == d2.attrs(),
{
}

#[verifier::external_type_specification]
#[verifier::external_body]
pub struct ExResource(opentelemetry_sdk::Resource);

/// What an SDK resource holds: its attributes, keys to values.
pub uninterp spec fn sdk_resource_attrs(r: opentelemetry_sdk::Resource) -> Map<
    Seq<char>,
    Seq<char>,
>;

/// Relies on `opentelemetry_sdk::Resource::new`: the resource holds exactly
/// the key/value pairs handed to it, de-duplicated by key with the
/// later pair kept.
#[verifier::external_body]
pub fn to_sdk_resource(d: &ResourceDescriptor) -> (r: opentelemetry_sdk::Resource)
    ensures
        sdk_resource_attrs(r) == attrs_as_map(d.attrs()),
{
    opentelemetry_sdk::Resource::new(
        d.attributes.iter().map(|p| opentelemetry::KeyValue::new(p.0.clone(), p.1.clone())),
    )
}

} // verus!
