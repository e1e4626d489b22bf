use vstd::prelude::*;
use vstd::string::*;

verus! {

/// One external-address binding on a network interface; the address is
/// absent when the machine has no external-facing address configured.
#[derive(Debug)]
pub struct AccessConfig {
    /// External IP address, if one is assigned.
    pub nat_ip: Option<String>,
}

impl View for AccessConfig {
    type V = Option<Seq<char>>;

    open spec fn view(&self) -> Option<Seq<char>> {
        match self.nat_ip {
            Some(ip) => Some(ip@),
            None => None,
        }
    }
}

impl Clone for AccessConfig {
    fn clone(&self) -> (r: Self)
        ensures
            r@ == self@,
    {
        AccessConfig {
            nat_ip: match &self.nat_ip {
                Some(ip) => Some(ip.clone()),
                None => None,
            },
        }
    }
}

/// The views of a sequence of access configurations.
pub open spec fn configs_view(v: Seq<AccessConfig>) -> Seq<Option<Seq<char>>> {
    v.map_values(|c: AccessConfig| c@)
}

/// A network interface attached to an instance: an ordered sequence of
/// access configurations.
#[derive(Debug)]
pub struct NetworkInterface {
    /// Configurations for external access, in provider order.
    pub access_configs: Vec<AccessConfig>,
}

impl View for NetworkInterface {
    type V = Seq<Option<Seq<char>>>;

    open spec fn view(&self) -> Seq<Option<Seq<char>>> {
        configs_view(self.access_configs@)
    }
}

/// The views of a sequence of network interfaces.
pub open spec fn interfaces_view(v: Seq<NetworkInterface>) -> Seq<Seq<Option<Seq<char>>>> {
    v.map_values(|n: NetworkInterface| n@)
}

impl Clone for NetworkInterface {
    fn clone(&self) -> (r: Self)
        ensures
            r@ == self@,
    {
        let mut configs: Vec<AccessConfig> = Vec::new();
        let mut i: usize = 0;
        while i < self.access_configs.len()
            invariant
                i <= self.access_configs.len(),
                configs@.len() == i,
                forall|k: int| 0 <= k < i ==> configs@[k]@ == self.access_configs@[k]@,
            decreases self.access_configs.len() - i,
        {
            configs.push(self.access_configs[i].clone());
            i = i + 1;
        }
        proof {
            assert(configs_view(configs@) =~= self@);
        }
        NetworkInterface { access_configs: configs }
    }
}

/// The mathematical value of an [`Instance`]: its name and raw location
/// reference as character sequences, and each interface as the sequence of
/// its configured addresses.
pub ghost struct InstanceView {
    pub name: Seq<char>,
    pub zone_url: Seq<char>,
    pub network_interfaces: Seq<Seq<Option<Seq<char>>>>,
}

/// One remote virtual machine, as decoded from the provider's listing.
/// Immutable once parsed: the zone name and the external IP are pure
/// derivations of these fields.
#[derive(Debug)]
pub struct Instance {
    /// Identifier of the machine within the listing.
    pub name: String,
    /// Raw location reference as returned by the provider, normally of the
    /// form `.../zones/<ZONE_NAME>`.
    pub zone_url: String,
    /// Network interfaces in provider order; may be empty.
    pub network_interfaces: Vec<NetworkInterface>,
}

impl View for Instance {
    type V = InstanceView;

    open spec fn view(&self) -> InstanceView {
        InstanceView {
            name: self.name@,
            zone_url: self.zone_url@,
            network_interfaces: interfaces_view(self.network_interfaces@),
        }
    }
}

/// The views of a sequence of instances.
pub open spec fn instances_view(v: Seq<Instance>) -> Seq<InstanceView> {
    v.map_values(|i: Instance| i@)
}

impl Clone for Instance {
    fn clone(&self) -> (r: Self)
        ensures
            r@ == self@,
    {
        let mut interfaces: Vec<NetworkInterface> = Vec::new();
        let mut i: usize = 0;
        while i < self.network_interfaces.len()
            invariant
                i <= self.network_interfaces.len(),
                interfaces@.len() == i,
                forall|k: int| 0 <= k < i ==> interfaces@[k]@ == self.network_interfaces@[k]@,
            decreases self.network_interfaces.len() - i,
        {
            interfaces.push(self.network_interfaces[i].clone());
            i = i + 1;
        }
        proof {
            assert(interfaces_view(interfaces@) =~= self@.network_interfaces);
        }
        Instance {
            name: self.name.clone(),
            zone_url: self.zone_url.clone(),
            network_interfaces: interfaces,
        }
    }
}

/// The zone name derived from a raw location reference: the suffix after the
/// last '/', or the whole reference when it holds no '/'. Defined by a scan
/// from the left that restarts at every '/'.
pub open spec fn zone_of(s: Seq<char>) -> Seq<char>
    decreases s.len(),
{
    if s.len() == 0 {
        s
    } else if s.last() == '/' {
        Seq::empty()
    } else {
        zone_of(s.drop_last()).push(s.last())
    }
}

/// Law: a location reference without any '/' is its own zone name.
pub proof fn lemma_zone_of_without_slash(s: Seq<char>)
    requires
        forall|j: int| 0 <= j < s.len() ==> s[j] != '/',
    ensures
        zone_of(s) == s,
    decreases s.len(),
{
    if s.len() > 0 {
        lemma_zone_of_without_slash(s.drop_last());
        assert(zone_of(s) =~= s);
    } else {
        assert(zone_of(s) =~= s);
    }
}

/// Law: when a location reference holds at least one '/', the zone name is
/// exactly the suffix after the last one.
pub proof fn lemma_zone_of_after_last_slash(s: Seq<char>, k: int)
    requires
        0 <= k < s.len(),
        s[k] == '/',
        forall|j: int| k < j < s.len() ==> s[j] != '/',
    ensures
        zone_of(s) == s.subrange(k + 1, s.len() as int),
    decreases s.len(),
{
    if k == s.len() - 1 {
        assert(zone_of(s) =~= s.subrange(k + 1, s.len() as int));
    } else {
        lemma_zone_of_after_last_slash(s.drop_last(), k);
        assert(zone_of(s) =~= s.subrange(k + 1, s.len() as int));
    }
}

/// The addresses of an `Option<String>` result, for stating contracts.
pub open spec fn ip_view(r: Option<String>) -> Option<Seq<char>> {
    match r {
        Some(ip) => Some(ip@),
        None => None,
    }
}

/// The first configured address of a single interface, scanning its access
/// configurations in order; `None` when every configuration lacks one.
pub open spec fn first_ip_of_configs(configs: Seq<Option<Seq<char>>>) -> Option<Seq<char>>
    decreases configs.len(),
{
    if configs.len() == 0 {
        None
    } else if configs.first() is Some {
        configs.first()
    } else {
        first_ip_of_configs(configs.drop_first())
    }
}

/// The first configured address of an instance, scanning interfaces in order
/// and, inside each interface, its access configurations in order; `None`
/// when no configuration carries one. The first interface is authoritative:
/// an address on a later interface is returned only when every earlier
/// configuration lacks one.
pub open spec fn first_ip_of_interfaces(interfaces: Seq<Seq<Option<Seq<char>>>>) -> Option<
    Seq<char>,
>
    decreases interfaces.len(),
{
    if interfaces.len() == 0 {
        None
    } else if first_ip_of_configs(interfaces.first()) is Some {
        first_ip_of_configs(interfaces.first())
    } else {
        first_ip_of_interfaces(interfaces.drop_first())
    }
}

impl Instance {
    /// Extracts the zone name from the raw location reference: the segment
    /// after the last '/', or the whole reference unchanged when it holds no
    /// '/'. Never fails, whatever the reference looks like.
    pub fn zone(&self) -> (z: String)
        ensures
            z@ == zone_of(self@.zone_url),
    {
        let s: &str = self.zone_url.as_str();
        let n: usize = s.unicode_len();
        let mut last_slash: Option<usize> = None;
        let mut i: usize = 0;
        while i < n
            invariant
                i <= n,
                n == s@.len(),
                s@ == self.zone_url@,
                match last_slash {
                    Some(k) => k < i && s@[k as int] == '/' && (forall|j: int|
                        k < j < i ==> s@[j] != '/'),
                    None => forall|j: int| 0 <= j < i ==> s@[j] != '/',
                },
            decreases n - i,
        {
            if s.get_char(i) == '/' {
                last_slash = Some(i);
            }
            i = i + 1;
        }
        match last_slash {
            Some(k) => {
                proof {
                    lemma_zone_of_after_last_slash(s@, k as int);
                }
                String::from_str(s.substring_char(k + 1, n))
            },
            None => {
                proof {
                    lemma_zone_of_without_slash(s@);
                }
                self.zone_url.clone()
            },
        }
    }

    /// The external IP of the instance: the first configured address found
    /// scanning interfaces in order and, inside each, its access
    /// configurations in order; `None` when no configuration carries one.
    pub fn external_ip(&self) -> (r: Option<String>)
        ensures
            ip_view(r) == first_ip_of_interfaces(self@.network_interfaces),
    {
        let ghost ifaces = self@.network_interfaces;
        proof {
            assert(ifaces.skip(0) =~= ifaces);
        }
        let mut i: usize = 0;
        while i < self.network_interfaces.len()
            invariant
                i <= self.network_interfaces.len(),
                ifaces == self@.network_interfaces,
                first_ip_of_interfaces(ifaces) == first_ip_of_interfaces(
                    ifaces.skip(i as int),
                ),
            decreases self.network_interfaces.len() - i,
        {
            let iface = &self.network_interfaces[i];
            proof {
                assert(iface@.skip(0) =~= iface@);
            }
            let mut j: usize = 0;
            while j < iface.access_configs.len()
                invariant
                    i < self.network_interfaces.len(),
                    ifaces == self@.network_interfaces,
                    first_ip_of_interfaces(ifaces) == first_ip_of_interfaces(
                        ifaces.skip(i as int),
                    ),
                    iface@ == ifaces[i as int],
                    j <= iface.access_configs.len(),
                    first_ip_of_configs(iface@) == first_ip_of_configs(
                        iface@.skip(j as int),
                    ),
                decreases iface.access_configs.len() - j,
            {
                match &iface.access_configs[j].nat_ip {
                    Some(ip) => {
                        proof {
                            assert(iface@.skip(j as int).first() == iface@[j as int]);
                            assert(first_ip_of_configs(iface@.skip(j as int)) == Some(ip@));
                            assert(ifaces.skip(i as int).first() == ifaces[i as int]);
                            assert(first_ip_of_interfaces(ifaces.skip(i as int)) == Some(ip@));
                        }
                        return Some(ip.clone());
                    },
                    None => {},
                }
                proof {
                    assert(iface@.skip(j as int).drop_first() =~= iface@.skip(j as int + 1));
                }
                j = j + 1;
            }
            proof {
                assert(iface@.skip(iface.access_configs.len() as int) =~= Seq::<
                    Option<Seq<char>>,
                >::empty());
                assert(ifaces.skip(i as int).first() == ifaces[i as int]);
                assert(ifaces.skip(i as int).drop_first() =~= ifaces.skip(i as int + 1));
            }
            i = i + 1;
        }
        proof {
            assert(ifaces.skip(self.network_interfaces.len() as int) =~= Seq::<
                Seq<Option<Seq<char>>>,
            >::empty());
        }
        None
    }
}

} // verus!
