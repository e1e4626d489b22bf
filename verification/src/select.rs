use vstd::prelude::*;
use vstd::string::*;
use crate::errors::ProvisionError;
use crate::instance::Instance;
use crate::instance::first_ip_of_interfaces;
use crate::instance::zone_of;
use crate::text::dec_str_of;
use crate::text::usize_to_string;

verus! {

/// The display line for one catalog entry: its one-based position, the
/// machine's name, its zone in parentheses, and its external address or a
/// marker that it has none.
pub open spec fn vm_line_for(
    index: nat,
    name: Seq<char>,
    zone: Seq<char>,
    ip: Option<Seq<char>>,
) -> Seq<char> {
    let marker = match ip {
        Some(ip) => ip,
        None => "no external IP"@,
    };
    "["@ + dec_str_of(index + 1) + "] "@ + name + " ("@ + zone + ") "@ + marker
}

/// Renders one line of the selection list, as [`vm_line_for`] says.
pub fn format_vm_list_item(index: usize, name: &str, zone: &str, ip: Option<&str>) -> (line:
    String)
    requires
        index < usize::MAX,
    ensures
        line@ == vm_line_for(
            index as nat,
            name@,
            zone@,
            match ip {
                Some(s) => Some(s@),
                None => None,
            },
        ),
{
    let mut line = String::from_str("[");
    let number = usize_to_string(index + 1);
    line.append(number.as_str());
    line.append("] ");
    line.append(name);
    line.append(" (");
    line.append(zone);
    line.append(") ");
    match ip {
        Some(s) => line.append(s),
        None => line.append("no external IP"),
    }
    line
}

/// Renders the display lines of the whole catalog, one per entry, in catalog
/// order — rendering never sorts or reorders.
pub fn selection_lines(catalog: &Vec<Instance>) -> (lines: Vec<String>)
    ensures
        lines@.len() == catalog@.len(),
        forall|k: int|
            0 <= k < catalog@.len() ==> lines@[k]@ == vm_line_for(
                k as nat,
                catalog@[k]@.name,
                zone_of(catalog@[k]@.zone_url),
                first_ip_of_interfaces(catalog@[k]@.network_interfaces),
            ),
{
    let mut lines: Vec<String> = Vec::new();
    let mut i: usize = 0;
    while i < catalog.len()
        invariant
            i <= catalog@.len(),
            lines@.len() == i,
            forall|k: int|
                0 <= k < i ==> lines@[k]@ == vm_line_for(
                    k as nat,
                    catalog@[k]@.name,
                    zone_of(catalog@[k]@.zone_url),
                    first_ip_of_interfaces(catalog@[k]@.network_interfaces),
                ),
        decreases catalog@.len() - i,
    {
        let inst = &catalog[i];
        let zone = inst.zone();
        let ip = inst.external_ip();
        let line = match &ip {
            Some(s) => format_vm_list_item(i, inst.name.as_str(), zone.as_str(), Some(s.as_str())),
            None => format_vm_list_item(i, inst.name.as_str(), zone.as_str(), None),
        };
        lines.push(line);
        i = i + 1;
    }
    lines
}

/// Selects one catalog entry by the zero-based index the interactive
/// collaborator reported, `None` standing for a cancelled prompt. The
/// catalog must be non-empty — the decoder upstream guarantees that. The
/// chosen record comes back as an independent deep copy, never an alias into
/// the catalog. An out-of-range report is rejected like a cancellation: it
/// never reaches the catalog lookup.
pub fn select_instance(catalog: &Vec<Instance>, choice: Option<usize>) -> (r: Result<
    Instance,
    ProvisionError,
>)
    requires
        catalog@.len() > 0,
    ensures
        choice matches Some(i) ==> (i < catalog@.len() ==> (r matches Ok(inst) && inst@
            == catalog@[i as int]@)),
        choice matches Some(i) ==> (i >= catalog@.len() ==> (r matches Err(e) && e
            is SelectionAborted)),
        choice is None ==> (r matches Err(e) && e is SelectionAborted),
{
    match choice {
        Some(i) => {
            if i < catalog.len() {
                Ok(catalog[i].clone())
            } else {
                Err(ProvisionError::SelectionAborted)
            }
        },
        None => Err(ProvisionError::SelectionAborted),
    }
}

} // verus!
