use crate::bridge::{BridgeInfo, BridgePortInfo};
use crate::iface::{Iface, MasterType};
use crate::order::{ascending, lemma_ascending_unique, names_view, sort_names};
use vstd::prelude::*;

verus! {

/// Names of the interfaces of `s` that are ports of the bridge named `bridge`,
/// in snapshot order.
pub open spec fn ports_of(s: Seq<Iface>, bridge: Seq<char>) -> Seq<Seq<char>>
    decreases s.len(),
{
    if s.len() == 0 {
        Seq::empty()
    } else if s.last().is_port_of(bridge) {
        ports_of(s.drop_last(), bridge).push(s.last().name@)
    } else {
        ports_of(s.drop_last(), bridge)
    }
}

/// `a` and `b` hold the same interfaces, with the same names, indexes and
/// master linkage, in the same order.
pub open spec fn same_identity(a: Seq<Iface>, b: Seq<Iface>) -> bool {
    &&& a.len() == b.len()
    &&& forall|k: int|
        0 <= k < a.len() ==> {
            &&& #[trigger] a[k].name == b[k].name
            &&& a[k].index == b[k].index
            &&& a[k].master == b[k].master
            &&& a[k].master_type == b[k].master_type
        }
}

/// The bridge payload `n` that the slave-list pass gives the interface `o` of
/// snapshot `s`: where `o` is a bridge with at least one port in `s`, its slave
/// list becomes those ports' names in ascending order; otherwise it is kept.
pub open spec fn bridge_after(s: Seq<Iface>, o: Iface, n: Option<BridgeInfo>) -> bool {
    if o.bridge.is_some() && ports_of(s, o.name@).len() > 0 {
        &&& n.is_some()
        &&& n.unwrap() == (BridgeInfo { slaves: n.unwrap().slaves, ..o.bridge.unwrap() })
        &&& ascending(names_view(n.unwrap().slaves@))
        &&& names_view(n.unwrap().slaves@).to_multiset() == ports_of(s, o.name@).to_multiset()
    } else {
        n == o.bridge
    }
}

/// `n` is `o` with the same identity and linkage.
pub open spec fn same_links(o: Iface, n: Iface) -> bool {
    &&& n.name == o.name
    &&& n.index == o.index
    &&& n.master == o.master
    &&& n.master_type == o.master_type
}

/// `new` is `old` after the slave-list pass.
pub open spec fn slaves_derived(old: Seq<Iface>, new: Seq<Iface>) -> bool {
    &&& new.len() == old.len()
    &&& forall|i: int|
        0 <= i < old.len() ==> {
            &&& same_links(old[i], #[trigger] new[i])
            &&& new[i].bridge_port == old[i].bridge_port
            &&& bridge_after(old, old[i], new[i].bridge)
        }
}

proof fn lemma_ports_of_same_identity(a: Seq<Iface>, b: Seq<Iface>, bridge: Seq<char>)
    requires
        same_identity(a, b),
    ensures
        ports_of(a, bridge) == ports_of(b, bridge),
    decreases a.len(),
{
    if a.len() > 0 {
        assert(a[a.len() - 1].name == b[b.len() - 1].name);
        lemma_ports_of_same_identity(a.drop_last(), b.drop_last(), bridge);
    }
}

/// Names of the ports of the bridge named `bridge`, in snapshot order.
fn collect_ports(s: &Vec<Iface>, bridge: &String) -> (r: Vec<String>)
    ensures
        names_view(r@) == ports_of(s@, bridge@),
{
    let mut r: Vec<String> = Vec::new();
    let mut k: usize = 0;
    while k < s.len()
        invariant
            k <= s@.len(),
            names_view(r@) == ports_of(s@.subrange(0, k as int), bridge@),
        decreases s@.len() - k,
    {
        assert(s@.subrange(0, k + 1).drop_last() =~= s@.subrange(0, k as int));
        if let Some(MasterType::Bridge) = s[k].master_type {
            if let Some(m) = &s[k].master {
                if m.eq(bridge) {
                    r.push(s[k].name.clone());
                }
            }
        }
        assert(names_view(r@) =~= ports_of(s@.subrange(0, k + 1), bridge@));
        k += 1;
    }
    assert(s@.subrange(0, s@.len() as int) =~= s@);
    r
}

/// Gives each bridge of the snapshot, that has at least one port in it, the
/// names of its ports in ascending order as its slave list. A bridge without
/// ports keeps the list it had.
pub fn gen_slave_list_of_master(iface_states: &mut Vec<Iface>)
    ensures
        slaves_derived(old(iface_states)@, final(iface_states)@),
{
    let ghost s0 = iface_states@;
    let mut i: usize = 0;
    while i < iface_states.len()
        invariant
            iface_states@.len() == s0.len(),
            i <= s0.len(),
            same_identity(s0, iface_states@),
            forall|j: int|
                0 <= j < i ==> {
                    &&& same_links(s0[j], #[trigger] iface_states@[j])
                    &&& iface_states@[j].bridge_port == s0[j].bridge_port
                    &&& bridge_after(s0, s0[j], iface_states@[j].bridge)
                },
            forall|j: int| i <= j < s0.len() ==> #[trigger] iface_states@[j] == s0[j],
        decreases s0.len() - i,
    {
        if iface_states[i].bridge.is_some() {
            let name = iface_states[i].name.clone();
            let mut slaves = collect_ports(iface_states, &name);
            proof {
                lemma_ports_of_same_identity(s0, iface_states@, name@);
            }
            if slaves.len() > 0 {
                sort_names(&mut slaves);
                let ghost before = iface_states@;
                match &mut iface_states[i].bridge {
                    Some(b) => {
                        b.slaves = slaves;
                    },
                    None => {},
                }
                assert(forall|j: int| 0 <= j < s0.len() && j != i ==> iface_states@[j] == before[j]);
            }
        }
        i += 1;
    }
}

/// The decimal digit `d` as a character.
pub open spec fn digit_char(d: nat) -> char {
    if d == 0 { '0' }
    else if d == 1 { '1' }
    else if d == 2 { '2' }
    else if d == 3 { '3' }
    else if d == 4 { '4' }
    else if d == 5 { '5' }
    else if d == 6 { '6' }
    else if d == 7 { '7' }
    else if d == 8 { '8' }
    else { '9' }
}

/// `n` written in decimal, without leading zeros.
pub open spec fn decimal(n: nat) -> Seq<char>
    decreases n,
{
    if n < 10 {
        seq![digit_char(n)]
    } else {
        decimal(n / 10).push(digit_char(n % 10))
    }
}

/// Relies on `u32`'s `Display` through `ToString`: the number in decimal.
#[verifier::external_body]
pub(crate) fn index_text(n: u32) -> (r: String)
    ensures
        r@ == decimal(n as nat),
{
    n.to_string()
}

/// Name of the first interface of `s` whose index is written `text`.
pub open spec fn name_of_index(s: Seq<Iface>, text: Seq<char>) -> Option<Seq<char>>
    decreases s.len(),
{
    if s.len() == 0 {
        None
    } else if decimal(s[0].index as nat) == text {
        Some(s[0].name@)
    } else {
        name_of_index(s.drop_first(), text)
    }
}

/// The port payload `n` that the backup-port pass gives the interface `o` of
/// snapshot `s`: where `o` is a bridge port whose backup port is a non-empty
/// index that some interface of `s` has, the index becomes that interface's
/// name; otherwise the payload is kept.
pub open spec fn port_after(s: Seq<Iface>, o: Iface, n: Option<BridgePortInfo>) -> bool {
    if o.is_bridge_port() && o.bridge_port.is_some()
        && o.bridge_port.unwrap().backup_port@.len() > 0
        && name_of_index(s, o.bridge_port.unwrap().backup_port@).is_some() {
        &&& n.is_some()
        &&& n.unwrap() == (BridgePortInfo {
            backup_port: n.unwrap().backup_port,
            ..o.bridge_port.unwrap()
        })
        &&& Some(n.unwrap().backup_port@) == name_of_index(s, o.bridge_port.unwrap().backup_port@)
    } else {
        n == o.bridge_port
    }
}

/// `new` is `old` after the backup-port pass.
pub open spec fn backups_resolved(old: Seq<Iface>, new: Seq<Iface>) -> bool {
    &&& new.len() == old.len()
    &&& forall|i: int|
        0 <= i < old.len() ==> {
            &&& same_links(old[i], #[trigger] new[i])
            &&& new[i].bridge == old[i].bridge
            &&& port_after(old, old[i], new[i].bridge_port)
        }
}

proof fn lemma_name_of_index_same_identity(a: Seq<Iface>, b: Seq<Iface>, text: Seq<char>)
    requires
        same_identity(a, b),
    ensures
        name_of_index(a, text) == name_of_index(b, text),
    decreases a.len(),
{
    if a.len() > 0 {
        assert(a[0].name == b[0].name);
        assert(same_identity(a.drop_first(), b.drop_first())) by {
            assert forall|k: int| 0 <= k < a.len() - 1 implies #[trigger] a.drop_first()[k].name
                == b.drop_first()[k].name by {
                assert(a[k + 1].name == b[k + 1].name);
            }
        }
        lemma_name_of_index_same_identity(a.drop_first(), b.drop_first(), text);
    }
}

/// Name of the first interface of the snapshot whose index is written `text`.
fn find_index_name(s: &Vec<Iface>, text: &String) -> (r: Option<String>)
    ensures
        r.is_some() == name_of_index(s@, text@).is_some(),
        r.is_some() ==> r.unwrap()@ == name_of_index(s@, text@).unwrap(),
{
    let mut k: usize = 0;
    assert(s@.subrange(0, s@.len() as int) =~= s@);
    while k < s.len()
        invariant
            k <= s@.len(),
            name_of_index(s@, text@) == name_of_index(s@.subrange(k as int, s@.len() as int), text@),
        decreases s@.len() - k,
    {
        assert(s@.subrange(k as int, s@.len() as int).drop_first() =~= s@.subrange(k + 1, s@.len() as int));
        let t = index_text(s[k].index);
        if t.eq(text) {
            return Some(s[k].name.clone());
        }
        k += 1;
    }
    None
}

/// Replaces, on each bridge port, a backup port given as an interface index by
/// the name of the interface with that index. An empty backup port is not
/// looked up, and an index that no interface has is left as it is.
pub fn convert_back_port_index_to_name(iface_states: &mut Vec<Iface>)
    ensures
        backups_resolved(old(iface_states)@, final(iface_states)@),
{
    let ghost s0 = iface_states@;
    let mut i: usize = 0;
    while i < iface_states.len()
        invariant
            iface_states@.len() == s0.len(),
            i <= s0.len(),
            same_identity(s0, iface_states@),
            forall|j: int|
                0 <= j < i ==> {
                    &&& same_links(s0[j], #[trigger] iface_states@[j])
                    &&& iface_states@[j].bridge == s0[j].bridge
                    &&& port_after(s0, s0[j], iface_states@[j].bridge_port)
                },
            forall|j: int| i <= j < s0.len() ==> #[trigger] iface_states@[j] == s0[j],
        decreases s0.len() - i,
    {
        if let Some(MasterType::Bridge) = iface_states[i].master_type {
            let found = match &iface_states[i].bridge_port {
                Some(p) => {
                    if !p.backup_port.as_str().is_empty() {
                        proof {
                            lemma_name_of_index_same_identity(s0, iface_states@, p.backup_port@);
                        }
                        find_index_name(iface_states, &p.backup_port)
                    } else {
                        None
                    }
                },
                None => None,
            };
            if let Some(name) = found {
                let ghost before = iface_states@;
                match &mut iface_states[i].bridge_port {
                    Some(p) => {
                        p.backup_port = name;
                    },
                    None => {},
                }
                assert(forall|j: int| 0 <= j < s0.len() && j != i ==> iface_states@[j] == before[j]);
            }
        }
        i += 1;
    }
}

/// `new` is `old` after both reconciliation passes.
pub open spec fn tidied(old: Seq<Iface>, new: Seq<Iface>) -> bool {
    &&& new.len() == old.len()
    &&& forall|i: int|
        0 <= i < old.len() ==> {
            &&& same_links(old[i], #[trigger] new[i])
            &&& bridge_after(old, old[i], new[i].bridge)
            &&& port_after(old, old[i], new[i].bridge_port)
        }
}

/// Reconciles a fully decoded snapshot: derives every bridge's slave list from
/// its ports' master pointers, then resolves backup-port indexes into names.
pub fn bridge_iface_tidy_up(iface_states: &mut Vec<Iface>)
    ensures
        tidied(old(iface_states)@, final(iface_states)@),
{
    let ghost s0 = iface_states@;
    gen_slave_list_of_master(iface_states);
    let ghost s1 = iface_states@;
    convert_back_port_index_to_name(iface_states);
    proof {
        assert(same_identity(s0, s1)) by {
            assert forall|k: int| 0 <= k < s0.len() implies #[trigger] s0[k].name == s1[k].name by {
                assert(same_links(s0[k], s1[k]));
            }
        }
        assert forall|i: int| 0 <= i < s0.len() implies port_after(s0, s0[i], #[trigger] iface_states@[i].bridge_port) by {
            assert(same_links(s0[i], s1[i]));
            assert(port_after(s1, s1[i], iface_states@[i].bridge_port));
            let o = s0[i];
            if o.bridge_port.is_some() {
                lemma_name_of_index_same_identity(s0, s1, o.bridge_port.unwrap().backup_port@);
            }
        }
    }
}

/// The two payloads agree, comparing strings by their characters.
pub open spec fn same_bridge(a: Option<BridgeInfo>, b: Option<BridgeInfo>) -> bool {
    match (a, b) {
        (None, None) => true,
        (Some(x), Some(y)) => {
            &&& y == (BridgeInfo { slaves: y.slaves, ..x })
            &&& names_view(x.slaves@) == names_view(y.slaves@)
        },
        _ => false,
    }
}

/// The two payloads agree, comparing strings by their characters.
pub open spec fn same_port(a: Option<BridgePortInfo>, b: Option<BridgePortInfo>) -> bool {
    match (a, b) {
        (None, None) => true,
        (Some(x), Some(y)) => {
            &&& y == (BridgePortInfo { backup_port: y.backup_port, ..x })
            &&& x.backup_port@ == y.backup_port@
        },
        _ => false,
    }
}

/// The two snapshots agree on every interface, comparing strings by their
/// characters.
pub open spec fn same_snapshot(a: Seq<Iface>, b: Seq<Iface>) -> bool {
    &&& a.len() == b.len()
    &&& forall|i: int|
        0 <= i < a.len() ==> {
            &&& same_links(a[i], #[trigger] b[i])
            &&& same_bridge(a[i].bridge, b[i].bridge)
            &&& same_port(a[i].bridge_port, b[i].bridge_port)
        }
}

/// No interface of `s` is named like the decimal index of an interface of `s`.
pub open spec fn names_unlike_indexes(s: Seq<Iface>) -> bool {
    forall|i: int, j: int|
        0 <= i < s.len() && 0 <= j < s.len() ==> #[trigger] s[i].name@ != #[trigger] decimal(
            s[j].index as nat,
        )
}

proof fn lemma_name_of_index_found(s: Seq<Iface>, text: Seq<char>)
    requires
        name_of_index(s, text).is_some(),
    ensures
        exists|j: int| 0 <= j < s.len() && decimal(s[j].index as nat) == text,
        exists|k: int| 0 <= k < s.len() && s[k].name@ == name_of_index(s, text).unwrap(),
    decreases s.len(),
{
    if decimal(s[0].index as nat) != text {
        lemma_name_of_index_found(s.drop_first(), text);
        let j = choose|j: int| 0 <= j < s.len() - 1 && decimal(s.drop_first()[j].index as nat) == text;
        assert(decimal(s[j + 1].index as nat) == text);
        let k = choose|k: int| 0 <= k < s.len() - 1 && s.drop_first()[k].name@ == name_of_index(s.drop_first(), text).unwrap();
        assert(s[k + 1].name@ == name_of_index(s, text).unwrap());
    }
}

/// Reconciling a reconciled snapshot again changes nothing, provided that no
/// interface is named like the decimal index of an interface (such a name,
/// once it replaced a backup-port index, would itself be looked up).
pub proof fn lemma_tidy_up_idempotent(s0: Seq<Iface>, s1: Seq<Iface>, s2: Seq<Iface>)
    requires
        names_unlike_indexes(s0),
        tidied(s0, s1),
        tidied(s1, s2),
    ensures
        same_snapshot(s1, s2),
{
    assert(same_identity(s0, s1)) by {
        assert forall|k: int| 0 <= k < s0.len() implies #[trigger] s0[k].name == s1[k].name by {
            assert(same_links(s0[k], s1[k]));
        }
    }
    assert forall|i: int| 0 <= i < s1.len() implies {
        &&& same_links(s1[i], #[trigger] s2[i])
        &&& same_bridge(s1[i].bridge, s2[i].bridge)
        &&& same_port(s1[i].bridge_port, s2[i].bridge_port)
    } by {
        let o = s0[i];
        let a = s1[i];
        let b = s2[i];
        assert(same_links(o, a));
        assert(same_links(a, b));
        lemma_ports_of_same_identity(s0, s1, o.name@);
        if o.bridge.is_some() && ports_of(s0, o.name@).len() > 0 {
            lemma_ascending_unique(
                names_view(a.bridge.unwrap().slaves@),
                names_view(b.bridge.unwrap().slaves@),
            );
        }
        if o.bridge_port.is_some() {
            let t = o.bridge_port.unwrap().backup_port@;
            lemma_name_of_index_same_identity(s0, s1, t);
            if a.bridge_port.is_some() {
                let u = a.bridge_port.unwrap().backup_port@;
                lemma_name_of_index_same_identity(s0, s1, u);
                if o.is_bridge_port() && t.len() > 0 && name_of_index(s0, t).is_some() {
                    lemma_name_of_index_found(s0, t);
                    if name_of_index(s0, u).is_some() {
                        lemma_name_of_index_found(s0, u);
                        let k = choose|k: int| 0 <= k < s0.len() && s0[k].name@ == u;
                        let j = choose|j: int| 0 <= j < s0.len() && decimal(s0[j].index as nat) == u;
                        assert(s0[k].name@ != decimal(s0[j].index as nat));
                    }
                }
            }
        }
    }
}

} // verus!
