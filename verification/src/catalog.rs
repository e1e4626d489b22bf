use vstd::prelude::*;
use crate::errors::ProvisionError;
use crate::instance::AccessConfig;
use crate::instance::Instance;
use crate::instance::InstanceView;
use crate::instance::NetworkInterface;
use crate::instance::configs_view;
use crate::instance::instances_view;
use crate::instance::interfaces_view;

verus! {

/// serde_json's dynamic JSON value, declared so the decoder can carry one
/// through. The library reads a value only through the trusted accessors
/// below, whose results are named by the uninterpreted functions beside
/// them: each is a function of the value (and key) alone.
#[verifier::external_type_specification]
#[verifier::external_body]
pub struct ExValue(serde_json::Value);

/// The document that a byte string parses to as one JSON value, or `None`
/// when serde_json cannot parse it: what serde_json::from_slice returns.
pub uninterp spec fn json_doc_of(bytes: Seq<u8>) -> Option<serde_json::Value>;

/// The elements of a JSON array value, in document order, or `None` on any
/// other kind of value: what serde_json::Value::as_array returns.
pub uninterp spec fn elems_of(v: serde_json::Value) -> Option<Seq<serde_json::Value>>;

/// The member of a JSON object under a key, or `None` when the value is no
/// object or has no such member: what serde_json::Value::get returns.
pub uninterp spec fn member_of(v: serde_json::Value, key: Seq<char>) -> Option<serde_json::Value>;

/// The text of a JSON string value, or `None` on any other kind of value:
/// what serde_json::Value::as_str returns.
pub uninterp spec fn str_of(v: serde_json::Value) -> Option<Seq<char>>;

/// Whether a JSON value is null: what serde_json::Value::is_null returns.
pub uninterp spec fn null_of(v: serde_json::Value) -> bool;

/// Relies on serde_json::from_slice: parses the bytes as one JSON document;
/// `None` when serde_json cannot parse them (malformed text, or nesting
/// beyond its recursion limit). The result depends on the bytes alone.
#[verifier::external_body]
fn parse_json(bytes: &[u8]) -> (r: Option<serde_json::Value>)
    ensures
        r == json_doc_of(bytes@),
{
    serde_json::from_slice(bytes).ok()
}

/// Relies on serde_json::Value::as_array: the elements, in document order,
/// when the value is a JSON array; `None` on any other kind of value.
#[verifier::external_body]
fn value_as_array<'a>(v: &'a serde_json::Value) -> (r: Option<&'a Vec<serde_json::Value>>)
    ensures
        r matches Some(a) ==> elems_of(*v) == Some(a@),
        r is None ==> elems_of(*v) is None,
{
    v.as_array()
}

/// Relies on serde_json::Value::get: the member under the key when the value
/// is a JSON object that has one; `None` otherwise.
#[verifier::external_body]
fn value_get<'a>(v: &'a serde_json::Value, key: &str) -> (r: Option<&'a serde_json::Value>)
    ensures
        r matches Some(m) ==> member_of(*v, key@) == Some(*m),
        r is None ==> member_of(*v, key@) is None,
{
    v.get(key)
}

/// Relies on serde_json::Value::as_str: the text when the value is a JSON
/// string; `None` on any other kind of value.
#[verifier::external_body]
fn value_as_string(v: &serde_json::Value) -> (r: Option<String>)
    ensures
        r matches Some(t) ==> str_of(*v) == Some(t@),
        r is None ==> str_of(*v) is None,
{
    v.as_str().map(|s| s.to_string())
}

/// Relies on serde_json::Value::is_null: whether the value is JSON null.
#[verifier::external_body]
fn value_is_null(v: &serde_json::Value) -> (r: bool)
    ensures
        r == null_of(*v),
{
    v.is_null()
}

/// The address that one access-configuration value decodes to. An absent or
/// null address field is a configuration without an address; a present field
/// of any other non-string kind is a shape error.
pub open spec fn spec_decode_access_config(v: serde_json::Value) -> Result<
    Option<Seq<char>>,
    ProvisionError,
> {
    match member_of(v, "natIP"@) {
        None => Ok(None),
        Some(field) => {
            if null_of(field) {
                Ok(None)
            } else {
                match str_of(field) {
                    Some(t) => Ok(Some(t)),
                    None => Err(ProvisionError::DecodingFailed),
                }
            }
        },
    }
}

/// The addresses that a sequence of access-configuration values decodes to,
/// element by element in order; the first shape error wins.
pub open spec fn spec_decode_configs(items: Seq<serde_json::Value>) -> Result<
    Seq<Option<Seq<char>>>,
    ProvisionError,
>
    decreases items.len(),
{
    if items.len() == 0 {
        Ok(Seq::<Option<Seq<char>>>::empty())
    } else {
        match spec_decode_access_config(items.first()) {
            Err(e) => Err(e),
            Ok(c) => match spec_decode_configs(items.drop_first()) {
                Err(e) => Err(e),
                Ok(rest) => Ok(seq![c] + rest),
            },
        }
    }
}

/// What one interface value decodes to: an object with an `accessConfigs`
/// array, decoded configuration by configuration.
pub open spec fn spec_decode_interface(v: serde_json::Value) -> Result<
    Seq<Option<Seq<char>>>,
    ProvisionError,
> {
    match member_of(v, "accessConfigs"@) {
        None => Err(ProvisionError::DecodingFailed),
        Some(field) => match elems_of(field) {
            None => Err(ProvisionError::DecodingFailed),
            Some(items) => spec_decode_configs(items),
        },
    }
}

/// What a sequence of interface values decodes to, element by element in
/// order; the first shape error wins.
pub open spec fn spec_decode_interfaces(items: Seq<serde_json::Value>) -> Result<
    Seq<Seq<Option<Seq<char>>>>,
    ProvisionError,
>
    decreases items.len(),
{
    if items.len() == 0 {
        Ok(Seq::<Seq<Option<Seq<char>>>>::empty())
    } else {
        match spec_decode_interface(items.first()) {
            Err(e) => Err(e),
            Ok(i) => match spec_decode_interfaces(items.drop_first()) {
                Err(e) => Err(e),
                Ok(rest) => Ok(seq![i] + rest),
            },
        }
    }
}

/// What one instance record decodes to: an object with a string `name`, a
/// string `zone`, and a `networkInterfaces` array, every field required and
/// any shape fault a decoding error.
pub open spec fn spec_decode_instance(v: serde_json::Value) -> Result<
    InstanceView,
    ProvisionError,
> {
    let name = match member_of(v, "name"@) {
        Some(field) => str_of(field),
        None => None,
    };
    let zone_url = match member_of(v, "zone"@) {
        Some(field) => str_of(field),
        None => None,
    };
    let interfaces = match member_of(v, "networkInterfaces"@) {
        Some(field) => match elems_of(field) {
            Some(items) => spec_decode_interfaces(items),
            None => Err(ProvisionError::DecodingFailed),
        },
        None => Err(ProvisionError::DecodingFailed),
    };
    match (name, zone_url, interfaces) {
        (Some(n), Some(z), Ok(ifs)) => Ok(
            InstanceView { name: n, zone_url: z, network_interfaces: ifs },
        ),
        _ => Err(ProvisionError::DecodingFailed),
    }
}

/// What a sequence of instance records decodes to, element by element in
/// order — complete, never reordered or filtered; the first shape error
/// wins.
pub open spec fn spec_decode_records(items: Seq<serde_json::Value>) -> Result<
    Seq<InstanceView>,
    ProvisionError,
>
    decreases items.len(),
{
    if items.len() == 0 {
        Ok(Seq::<InstanceView>::empty())
    } else {
        match spec_decode_instance(items.first()) {
            Err(e) => Err(e),
            Ok(i) => match spec_decode_records(items.drop_first()) {
                Err(e) => Err(e),
                Ok(rest) => Ok(seq![i] + rest),
            },
        }
    }
}

/// What the element sequence of a listing decodes to: an empty listing is
/// its own error, and otherwise the records decode in order.
pub open spec fn spec_decode_instances(items: Seq<serde_json::Value>) -> Result<
    Seq<InstanceView>,
    ProvisionError,
> {
    if items.len() == 0 {
        Err(ProvisionError::NoInstancesFound)
    } else {
        spec_decode_records(items)
    }
}

/// What the listing bytes decode to: a JSON document that is a non-empty
/// array of instance records, decoded in order.
pub open spec fn spec_decode_listing(bytes: Seq<u8>) -> Result<Seq<InstanceView>, ProvisionError> {
    match json_doc_of(bytes) {
        None => Err(ProvisionError::DecodingFailed),
        Some(doc) => match elems_of(doc) {
            None => Err(ProvisionError::DecodingFailed),
            Some(items) => spec_decode_instances(items),
        },
    }
}

/// Builds a typed access configuration from the raw shape of its address
/// field: `field_present` says whether the field exists at all, `null`
/// whether it holds JSON null, and `text` its text when it holds a string.
/// An absent or null field is a configuration without an address; a present
/// field of any other non-string kind is a shape error.
pub fn access_config_from_field(field_present: bool, null: bool, text: Option<String>) -> (r:
    Result<AccessConfig, ProvisionError>)
    ensures
        !field_present ==> (r matches Ok(c) && c@ == None::<Seq<char>>),
        field_present && null ==> (r matches Ok(c) && c@ == None::<Seq<char>>),
        field_present && !null ==> (text matches Some(t) ==> (r matches Ok(c) && c@ == Some(
            t@,
        ))),
        field_present && !null && text is None ==> r == Err::<AccessConfig, ProvisionError>(
            ProvisionError::DecodingFailed,
        ),
{
    if !field_present || null {
        Ok(AccessConfig { nat_ip: None })
    } else {
        match text {
            Some(t) => Ok(AccessConfig { nat_ip: Some(t) }),
            None => Err(ProvisionError::DecodingFailed),
        }
    }
}

/// Decodes one access configuration from its JSON value, exactly as
/// [`spec_decode_access_config`] says.
fn decode_access_config(v: &serde_json::Value) -> (r: Result<AccessConfig, ProvisionError>)
    ensures
        r matches Ok(c) ==> spec_decode_access_config(*v) == Ok::<Option<Seq<char>>,
            ProvisionError,
        >(c@),
        r matches Err(e) ==> ({
            &&& spec_decode_access_config(*v) == Err::<Option<Seq<char>>, ProvisionError>(e)
            &&& e is DecodingFailed
        }),
{
    match value_get(v, "natIP") {
        None => access_config_from_field(false, false, None),
        Some(field) => {
            let null = value_is_null(field);
            let text = value_as_string(field);
            access_config_from_field(true, null, text)
        },
    }
}

/// Decodes one network interface from its JSON value, exactly as
/// [`spec_decode_interface`] says.
fn decode_network_interface(v: &serde_json::Value) -> (r: Result<
    NetworkInterface,
    ProvisionError,
>)
    ensures
        r matches Ok(n) ==> spec_decode_interface(*v) == Ok::<Seq<Option<Seq<char>>>,
            ProvisionError,
        >(n@),
        r matches Err(e) ==> ({
            &&& spec_decode_interface(*v) == Err::<Seq<Option<Seq<char>>>, ProvisionError>(e)
            &&& e is DecodingFailed
        }),
{
    let field = match value_get(v, "accessConfigs") {
        Some(field) => field,
        None => {
            return Err(ProvisionError::DecodingFailed);
        },
    };
    let items = match value_as_array(field) {
        Some(items) => items,
        None => {
            return Err(ProvisionError::DecodingFailed);
        },
    };
    let ghost itemsv = items@;
    let mut configs: Vec<AccessConfig> = Vec::new();
    let mut i: usize = 0;
    proof {
        assert(itemsv.skip(0) =~= itemsv);
        match spec_decode_configs(itemsv) {
            Ok(rest) => {
                assert(configs_view(configs@) + rest =~= rest);
            },
            Err(_) => {},
        }
    }
    while i < items.len()
        invariant
            i <= items@.len(),
            itemsv == items@,
            spec_decode_interface(*v) == (match spec_decode_configs(itemsv.skip(i as int)) {
                Ok(rest) => Ok::<Seq<Option<Seq<char>>>, ProvisionError>(
                    configs_view(configs@) + rest,
                ),
                Err(e) => Err::<Seq<Option<Seq<char>>>, ProvisionError>(e),
            }),
        decreases items@.len() - i,
    {
        proof {
            assert(itemsv.skip(i as int).first() == itemsv[i as int]);
            assert(itemsv.skip(i as int).drop_first() =~= itemsv.skip(i as int + 1));
        }
        match decode_access_config(&items[i]) {
            Ok(c) => {
                proof {
                    match spec_decode_configs(itemsv.skip(i as int + 1)) {
                        Ok(rest) => {
                            assert(configs_view(configs@) + (seq![c@] + rest) =~= configs_view(
                                configs@.push(c),
                            ) + rest);
                        },
                        Err(_) => {},
                    }
                }
                configs.push(c);
            },
            Err(e) => {
                return Err(e);
            },
        }
        i = i + 1;
    }
    proof {
        assert(itemsv.skip(items@.len() as int) =~= Seq::<serde_json::Value>::empty());
        assert(configs_view(configs@) + Seq::<Option<Seq<char>>>::empty() =~= configs_view(
            configs@,
        ));
    }
    Ok(NetworkInterface { access_configs: configs })
}

/// Assembles an instance from its extracted raw fields. Every field is
/// required: the instance is built exactly when all three are present, and a
/// missing one is a shape error, never a silent default.
pub fn instance_from_parts(
    name: Option<String>,
    zone_url: Option<String>,
    interfaces: Option<Vec<NetworkInterface>>,
) -> (r: Result<Instance, ProvisionError>)
    ensures
        name matches Some(nm) ==> (zone_url matches Some(z) ==> (interfaces matches Some(ifs)
            ==> (r matches Ok(inst) && inst@.name == nm@ && inst@.zone_url == z@
            && inst.network_interfaces@ == ifs@))),
        name is None || zone_url is None || interfaces is None ==> r == Err::<
            Instance,
            ProvisionError,
        >(ProvisionError::DecodingFailed),
{
    match (name, zone_url, interfaces) {
        (Some(nm), Some(z), Some(ifs)) => Ok(
            Instance { name: nm, zone_url: z, network_interfaces: ifs },
        ),
        _ => Err(ProvisionError::DecodingFailed),
    }
}

/// Extracts a string member of a JSON object: `Some` exactly when the member
/// exists and holds a JSON string.
fn string_member(v: &serde_json::Value, key: &str) -> (r: Option<String>)
    ensures
        r matches Some(t) ==> (match member_of(*v, key@) {
            Some(field) => str_of(field) == Some(t@),
            None => false,
        }),
        r is None ==> (match member_of(*v, key@) {
            Some(field) => str_of(field) is None,
            None => true,
        }),
{
    match value_get(v, key) {
        Some(field) => value_as_string(field),
        None => None,
    }
}

/// Decodes one instance record from its JSON value, exactly as
/// [`spec_decode_instance`] says.
fn decode_instance(v: &serde_json::Value) -> (r: Result<Instance, ProvisionError>)
    ensures
        r matches Ok(inst) ==> spec_decode_instance(*v) == Ok::<InstanceView, ProvisionError>(
            inst@,
        ),
        r matches Err(e) ==> ({
            &&& spec_decode_instance(*v) == Err::<InstanceView, ProvisionError>(e)
            &&& e is DecodingFailed
        }),
{
    let name = string_member(v, "name");
    let zone_url = string_member(v, "zone");
    let field = match value_get(v, "networkInterfaces") {
        Some(field) => field,
        None => {
            return Err(ProvisionError::DecodingFailed);
        },
    };
    let items = match value_as_array(field) {
        Some(items) => items,
        None => {
            return Err(ProvisionError::DecodingFailed);
        },
    };
    let ghost itemsv = items@;
    let mut decoded: Vec<NetworkInterface> = Vec::new();
    let mut i: usize = 0;
    proof {
        assert(itemsv.skip(0) =~= itemsv);
        match spec_decode_interfaces(itemsv) {
            Ok(rest) => {
                assert(interfaces_view(decoded@) + rest =~= rest);
            },
            Err(_) => {},
        }
    }
    while i < items.len()
        invariant
            i <= items@.len(),
            itemsv == items@,
            (match member_of(*v, "networkInterfaces"@) {
                Some(field) => elems_of(field) == Some(itemsv),
                None => false,
            }),
            spec_decode_interfaces(itemsv) == (match spec_decode_interfaces(
                itemsv.skip(i as int),
            ) {
                Ok(rest) => Ok::<Seq<Seq<Option<Seq<char>>>>, ProvisionError>(
                    interfaces_view(decoded@) + rest,
                ),
                Err(e) => Err::<Seq<Seq<Option<Seq<char>>>>, ProvisionError>(e),
            }),
        decreases items@.len() - i,
    {
        proof {
            assert(itemsv.skip(i as int).first() == itemsv[i as int]);
            assert(itemsv.skip(i as int).drop_first() =~= itemsv.skip(i as int + 1));
        }
        match decode_network_interface(&items[i]) {
            Ok(n) => {
                proof {
                    match spec_decode_interfaces(itemsv.skip(i as int + 1)) {
                        Ok(rest) => {
                            assert(interfaces_view(decoded@) + (seq![n@] + rest)
                                =~= interfaces_view(decoded@.push(n)) + rest);
                        },
                        Err(_) => {},
                    }
                }
                decoded.push(n);
            },
            Err(e) => {
                return Err(e);
            },
        }
        i = i + 1;
    }
    proof {
        assert(itemsv.skip(items@.len() as int) =~= Seq::<serde_json::Value>::empty());
        assert(interfaces_view(decoded@) + Seq::<Seq<Option<Seq<char>>>>::empty()
            =~= interfaces_view(decoded@));
    }
    let r = instance_from_parts(name, zone_url, Some(decoded));
    proof {
        match &r {
            Ok(inst) => {
                assert(inst@.network_interfaces =~= interfaces_view(decoded@));
            },
            Err(_) => {},
        }
    }
    r
}

/// Decodes the elements of the listing array, exactly as
/// [`spec_decode_instances`] says. An empty listing is an error of its own —
/// the workflow has no selectable target — reported exactly when the array
/// has no elements; any shape fault inside an element is a decoding error,
/// and a decoded listing keeps every record, in array order.
pub fn decode_instances(items: &Vec<serde_json::Value>) -> (r: Result<
    Vec<Instance>,
    ProvisionError,
>)
    ensures
        items@.len() == 0 <==> r == Err::<Vec<Instance>, ProvisionError>(
            ProvisionError::NoInstancesFound,
        ),
        r matches Ok(v) ==> ({
            &&& spec_decode_instances(items@) == Ok::<Seq<InstanceView>, ProvisionError>(
                instances_view(v@),
            )
            &&& v@.len() == items@.len()
            &&& items@.len() > 0
        }),
        r matches Err(e) ==> ({
            &&& spec_decode_instances(items@) == Err::<Seq<InstanceView>, ProvisionError>(e)
            &&& (e is NoInstancesFound || e is DecodingFailed)
        }),
{
    if items.len() == 0 {
        return Err(ProvisionError::NoInstancesFound);
    }
    let ghost itemsv = items@;
    let mut instances: Vec<Instance> = Vec::new();
    let mut i: usize = 0;
    proof {
        assert(itemsv.skip(0) =~= itemsv);
        match spec_decode_records(itemsv) {
            Ok(rest) => {
                assert(instances_view(instances@) + rest =~= rest);
            },
            Err(_) => {},
        }
    }
    while i < items.len()
        invariant
            i <= items@.len(),
            itemsv == items@,
            itemsv.len() > 0,
            instances@.len() == i,
            spec_decode_records(itemsv) == (match spec_decode_records(itemsv.skip(i as int)) {
                Ok(rest) => Ok::<Seq<InstanceView>, ProvisionError>(
                    instances_view(instances@) + rest,
                ),
                Err(e) => Err::<Seq<InstanceView>, ProvisionError>(e),
            }),
        decreases items@.len() - i,
    {
        proof {
            assert(itemsv.skip(i as int).first() == itemsv[i as int]);
            assert(itemsv.skip(i as int).drop_first() =~= itemsv.skip(i as int + 1));
        }
        match decode_instance(&items[i]) {
            Ok(inst) => {
                proof {
                    match spec_decode_records(itemsv.skip(i as int + 1)) {
                        Ok(rest) => {
                            assert(instances_view(instances@) + (seq![inst@] + rest)
                                =~= instances_view(instances@.push(inst)) + rest);
                        },
                        Err(_) => {},
                    }
                }
                instances.push(inst);
            },
            Err(e) => {
                return Err(e);
            },
        }
        i = i + 1;
    }
    proof {
        assert(itemsv.skip(items@.len() as int) =~= Seq::<serde_json::Value>::empty());
        assert(instances_view(instances@) + Seq::<InstanceView>::empty() =~= instances_view(
            instances@,
        ));
    }
    Ok(instances)
}

/// Decodes the listing command's standard output, exactly as
/// [`spec_decode_listing`] says: the bytes must form a JSON array of
/// instance records, the array must not be empty, and a decoded listing
/// keeps every record's name, location reference and interface structure, in
/// array order.
pub fn decode_listing_output(stdout: &[u8]) -> (r: Result<Vec<Instance>, ProvisionError>)
    ensures
        r matches Ok(v) ==> ({
            &&& spec_decode_listing(stdout@) == Ok::<Seq<InstanceView>, ProvisionError>(
                instances_view(v@),
            )
            &&& v@.len() > 0
        }),
        r matches Err(e) ==> ({
            &&& spec_decode_listing(stdout@) == Err::<Seq<InstanceView>, ProvisionError>(e)
            &&& (e is DecodingFailed || e is NoInstancesFound)
        }),
{
    let doc = match parse_json(stdout) {
        Some(doc) => doc,
        None => {
            return Err(ProvisionError::DecodingFailed);
        },
    };
    let items = match value_as_array(&doc) {
        Some(items) => items,
        None => {
            return Err(ProvisionError::DecodingFailed);
        },
    };
    decode_instances(items)
}

/// Interprets the full outcome of the instance-listing command: a non-zero
/// exit carries the raw stderr as a listing failure, distinct from any
/// decoding problem; a zero exit hands the output to the decoder, whose
/// result is exactly [`spec_decode_listing`] of the bytes.
pub fn listing_outcome(success: bool, stderr: String, stdout: &[u8]) -> (r: Result<
    Vec<Instance>,
    ProvisionError,
>)
    ensures
        !success ==> (r matches Err(ProvisionError::ListingFailed(d)) && d == stderr),
        success ==> (r matches Ok(v) ==> ({
            &&& spec_decode_listing(stdout@) == Ok::<Seq<InstanceView>, ProvisionError>(
                instances_view(v@),
            )
            &&& v@.len() > 0
        })),
        success ==> (r matches Err(e) ==> ({
            &&& spec_decode_listing(stdout@) == Err::<Seq<InstanceView>, ProvisionError>(e)
            &&& (e is DecodingFailed || e is NoInstancesFound)
        })),
{
    if !success {
        return Err(ProvisionError::ListingFailed(stderr));
    }
    decode_listing_output(stdout)
}

} // verus!
