use vstd::multiset::Multiset;
use vstd::prelude::*;

use crate::device::BluetoothDevice;
use crate::duration::Duration;
use crate::editing::TimeoutEditing;
use crate::native::{ConnectToDeviceError, DiscoverDevicesError, RemoveDeviceError};
use crate::mac_address::{mac_key, MacAddress};
use crate::timeout::{advanced, default_timeout, expires, Timeout};

verus! {

/// Whether the scan `devices` shows the device `m` as connected.
pub open spec fn is_connected(devices: Seq<BluetoothDevice>, m: MacAddress) -> bool {
    exists|i: int| 0 <= i < devices.len() && devices[i].connected && #[trigger] devices[i].mac_address == m
}

/// The addresses of the connected devices of a scan.
pub open spec fn connected_ids(devices: Seq<BluetoothDevice>) -> Set<MacAddress> {
    Set::new(|m: MacAddress| is_connected(devices, m))
}

/// Whether `entries` holds an entry for `m`.
pub open spec fn has_entry(entries: Seq<Timeout>, m: MacAddress) -> bool {
    exists|i: int| 0 <= i < entries.len() && #[trigger] entries[i].mac_address == m
}

/// The addresses that have an entry.
pub open spec fn entry_ids(entries: Seq<Timeout>) -> Set<MacAddress> {
    Set::new(|m: MacAddress| has_entry(entries, m))
}

/// No two entries share an address.
pub open spec fn unique_entries(entries: Seq<Timeout>) -> bool {
    forall|i: int, j: int|
        0 <= i < entries.len() && 0 <= j < entries.len() && #[trigger] entries[i].mac_address
            == #[trigger] entries[j].mac_address ==> i == j
}

/// Each entry advanced by `elapsed`, keeping only those whose device is
/// connected in `devices`, in their order.
pub open spec fn advance_and_prune(entries: Seq<Timeout>, devices: Seq<BluetoothDevice>, elapsed: nat) -> Seq<Timeout>
    decreases entries.len(),
{
    if entries.len() == 0 {
        seq![]
    } else {
        let rest = advance_and_prune(entries.drop_last(), devices, elapsed);
        if is_connected(devices, entries.last().mac_address) {
            rest.push(advanced(entries.last(), elapsed))
        } else {
            rest
        }
    }
}

/// `entries` followed by a default entry for each connected device of
/// `devices` that has none, in the order of the scan.
pub open spec fn add_missing(entries: Seq<Timeout>, devices: Seq<BluetoothDevice>) -> Seq<Timeout>
    decreases devices.len(),
{
    if devices.len() == 0 {
        entries
    } else {
        let before = add_missing(entries, devices.drop_last());
        let d = devices.last();
        if d.connected && !has_entry(before, d.mac_address) {
            before.push(default_timeout(d.mac_address))
        } else {
            before
        }
    }
}

/// The entries after one reconciliation pass.
pub open spec fn reconciled(entries: Seq<Timeout>, devices: Seq<BluetoothDevice>, elapsed: nat) -> Seq<Timeout> {
    add_missing(advance_and_prune(entries, devices, elapsed), devices)
}

/// The addresses whose countdown expires in a pass, in the order of the
/// entries.
pub open spec fn expired_ids(entries: Seq<Timeout>, elapsed: nat) -> Seq<MacAddress>
    decreases entries.len(),
{
    if entries.len() == 0 {
        seq![]
    } else {
        let rest = expired_ids(entries.drop_last(), elapsed);
        if expires(entries.last(), elapsed) {
            rest.push(entries.last().mac_address)
        } else {
            rest
        }
    }
}

/// The addresses whose pairing is to be removed at exit, in the order of the
/// entries.
pub open spec fn removed_on_close(entries: Seq<Timeout>) -> Seq<MacAddress>
    decreases entries.len(),
{
    if entries.len() == 0 {
        seq![]
    } else {
        let rest = removed_on_close(entries.drop_last());
        if entries.last().remove_on_close {
            rest.push(entries.last().mac_address)
        } else {
            rest
        }
    }
}

/// Whether `devices` shows `m` connected.
fn connected_in(devices: &Vec<BluetoothDevice>, m: MacAddress) -> (r: bool)
    ensures
        r == is_connected(devices@, m),
{
    let mut i: usize = 0;
    while i < devices.len()
        invariant
            0 <= i <= devices.len(),
            forall|k: int| 0 <= k < i ==> !(devices@[k].connected && devices@[k].mac_address == m),
        decreases devices.len() - i,
    {
        if devices[i].connected && devices[i].mac_address == m {
            return true;
        }
        i += 1;
    }
    false
}

/// Whether the scan `devices` lists `m`, connected or not.
fn device_listed(devices: &Vec<BluetoothDevice>, m: MacAddress) -> (r: bool)
    ensures
        r == exists|i: int| 0 <= i < devices@.len() && #[trigger] devices@[i].mac_address == m,
{
    let mut i: usize = 0;
    while i < devices.len()
        invariant
            0 <= i <= devices.len(),
            forall|k: int| 0 <= k < i ==> devices@[k].mac_address != m,
        decreases devices.len() - i,
    {
        if devices[i].mac_address == m {
            return true;
        }
        i += 1;
    }
    false
}

/// The position of the first entry for `m`, if any.
fn entry_position(entries: &Vec<Timeout>, m: MacAddress) -> (r: Option<usize>)
    ensures
        r is Some <==> has_entry(entries@, m),
        r matches Some(k) ==> k < entries@.len() && entries@[k as int].mac_address == m,
{
    let mut i: usize = 0;
    while i < entries.len()
        invariant
            0 <= i <= entries.len(),
            forall|k: int| 0 <= k < i ==> entries@[k].mac_address != m,
        decreases entries.len() - i,
    {
        if entries[i].mac_address == m {
            return Some(i);
        }
        i += 1;
    }
    None
}

/// Whether `entries` holds an entry for `m`.
fn entry_in(entries: &Vec<Timeout>, m: MacAddress) -> (r: bool)
    ensures
        r == has_entry(entries@, m),
{
    let mut i: usize = 0;
    while i < entries.len()
        invariant
            0 <= i <= entries.len(),
            forall|k: int| 0 <= k < i ==> entries@[k].mac_address != m,
        decreases entries.len() - i,
    {
        if entries[i].mac_address == m {
            return true;
        }
        i += 1;
    }
    false
}


/// Which addresses survive the pruning step: those with an entry whose device
/// is connected. The entries keep their addresses unique and well formed.
proof fn lemma_advance_and_prune(entries: Seq<Timeout>, devices: Seq<BluetoothDevice>, elapsed: nat)
    ensures
        forall|m: MacAddress|
            has_entry(advance_and_prune(entries, devices, elapsed), m) <==> has_entry(entries, m)
                && is_connected(devices, m),
        unique_entries(entries) ==> unique_entries(advance_and_prune(entries, devices, elapsed)),
        (forall|i: int| 0 <= i < entries.len() ==> (#[trigger] entries[i]).wf()) ==> forall|i: int|
            0 <= i < advance_and_prune(entries, devices, elapsed).len() ==> (
            #[trigger] advance_and_prune(entries, devices, elapsed)[i]).wf(),
    decreases entries.len(),
{
    if entries.len() > 0 {
        let init = entries.drop_last();
        let t = entries.last();
        let rest = advance_and_prune(init, devices, elapsed);
        lemma_advance_and_prune(init, devices, elapsed);
        let r = advance_and_prune(entries, devices, elapsed);
        assert forall|m: MacAddress| has_entry(r, m) <==> has_entry(entries, m) && is_connected(devices, m) by {
            if has_entry(entries, m) && is_connected(devices, m) {
                let k = choose|k: int| 0 <= k < entries.len() && #[trigger] entries[k].mac_address == m;
                if k < init.len() {
                    assert(init[k].mac_address == m);
                    let q = choose|q: int| 0 <= q < rest.len() && #[trigger] rest[q].mac_address == m;
                    assert(r[q].mac_address == m);
                } else {
                    assert(r[r.len() - 1].mac_address == m);
                }
            }
            if has_entry(r, m) {
                let q = choose|q: int| 0 <= q < r.len() && #[trigger] r[q].mac_address == m;
                if q < rest.len() {
                    assert(rest[q].mac_address == m);
                    assert(has_entry(rest, m));
                    assert(has_entry(init, m));
                    let k = choose|k: int| 0 <= k < init.len() && #[trigger] init[k].mac_address == m;
                    assert(entries[k].mac_address == m);
                } else {
                    assert(entries[entries.len() - 1].mac_address == m);
                }
            }
        }
        if unique_entries(entries) {
            assert(unique_entries(init)) by {
                assert forall|i: int, j: int|
                    0 <= i < init.len() && 0 <= j < init.len() && #[trigger] init[i].mac_address
                        == #[trigger] init[j].mac_address implies i == j by {
                    assert(entries[i] == init[i] && entries[j] == init[j]);
                }
            }
            if is_connected(devices, t.mac_address) {
                assert(!has_entry(init, t.mac_address)) by {
                    if has_entry(init, t.mac_address) {
                        let k = choose|k: int| 0 <= k < init.len() && #[trigger] init[k].mac_address == t.mac_address;
                        assert(entries[k].mac_address == entries[entries.len() - 1].mac_address);
                    }
                }
                assert forall|i: int, j: int|
                    0 <= i < r.len() && 0 <= j < r.len() && #[trigger] r[i].mac_address
                        == #[trigger] r[j].mac_address implies i == j by {
                    if i < rest.len() && j == rest.len() {
                        assert(rest[i].mac_address == t.mac_address);
                    }
                    if j < rest.len() && i == rest.len() {
                        assert(rest[j].mac_address == t.mac_address);
                    }
                }
            }
        }
        if forall|i: int| 0 <= i < entries.len() ==> (#[trigger] entries[i]).wf() {
            assert forall|i: int| 0 <= i < init.len() implies (#[trigger] init[i]).wf() by {
                assert(entries[i] == init[i]);
            }
            assert(t.wf()) by {
                assert(entries[entries.len() - 1] == t);
            }
        }
    }
}

/// Which addresses have an entry once the missing ones are added: those that
/// had one and the connected ones. Addresses stay unique, entries well formed.
proof fn lemma_add_missing(entries: Seq<Timeout>, devices: Seq<BluetoothDevice>)
    ensures
        forall|m: MacAddress|
            has_entry(add_missing(entries, devices), m) <==> has_entry(entries, m) || is_connected(devices, m),
        unique_entries(entries) ==> unique_entries(add_missing(entries, devices)),
        (forall|i: int| 0 <= i < entries.len() ==> (#[trigger] entries[i]).wf()) ==> forall|i: int|
            0 <= i < add_missing(entries, devices).len() ==> (#[trigger] add_missing(entries, devices)[i]).wf(),
    decreases devices.len(),
{
    if devices.len() > 0 {
        let init = devices.drop_last();
        let d = devices.last();
        let before = add_missing(entries, init);
        lemma_add_missing(entries, init);
        let r = add_missing(entries, devices);
        assert forall|m: MacAddress| has_entry(r, m) <==> has_entry(entries, m) || is_connected(devices, m) by {
            if is_connected(devices, m) {
                let k = choose|k: int| 0 <= k < devices.len() && devices[k].connected && #[trigger] devices[k].mac_address == m;
                if k < init.len() {
                    assert(init[k].connected && init[k].mac_address == m);
                    assert(is_connected(init, m));
                    assert(has_entry(before, m));
                    let q = choose|q: int| 0 <= q < before.len() && #[trigger] before[q].mac_address == m;
                    assert(r[q].mac_address == m);
                } else if !has_entry(before, m) {
                    assert(r[r.len() - 1].mac_address == m);
                } else {
                    let q = choose|q: int| 0 <= q < before.len() && #[trigger] before[q].mac_address == m;
                    assert(r[q].mac_address == m);
                }
            }
            if has_entry(entries, m) {
                let q = choose|q: int| 0 <= q < before.len() && #[trigger] before[q].mac_address == m;
                assert(r[q].mac_address == m);
            }
            if has_entry(r, m) {
                let q = choose|q: int| 0 <= q < r.len() && #[trigger] r[q].mac_address == m;
                if q < before.len() {
                    assert(before[q].mac_address == m);
                    if is_connected(init, m) {
                        let k = choose|k: int| 0 <= k < init.len() && init[k].connected && #[trigger] init[k].mac_address == m;
                        assert(devices[k].mac_address == m);
                    }
                } else {
                    assert(devices[devices.len() - 1].mac_address == m);
                }
            }
        }
        if unique_entries(entries) {
            assert forall|i: int, j: int|
                0 <= i < r.len() && 0 <= j < r.len() && #[trigger] r[i].mac_address
                    == #[trigger] r[j].mac_address implies i == j by {
                if i < before.len() && j == before.len() {
                    assert(before[i].mac_address == d.mac_address);
                }
                if j < before.len() && i == before.len() {
                    assert(before[j].mac_address == d.mac_address);
                }
            }
        }
    }
}

/// After a reconciliation pass the entries name exactly the connected
/// devices of the scan, whatever entries there were before, and no address
/// has two entries where none had before.
pub proof fn lemma_entries_match_connected(entries: Seq<Timeout>, devices: Seq<BluetoothDevice>, elapsed: nat)
    ensures
        entry_ids(reconciled(entries, devices, elapsed)) == connected_ids(devices),
        unique_entries(entries) ==> unique_entries(reconciled(entries, devices, elapsed)),
{
    lemma_advance_and_prune(entries, devices, elapsed);
    lemma_add_missing(advance_and_prune(entries, devices, elapsed), devices);
    assert(entry_ids(reconciled(entries, devices, elapsed)) =~= connected_ids(devices));
}

proof fn lemma_add_missing_extends(entries: Seq<Timeout>, devices: Seq<BluetoothDevice>)
    ensures
        add_missing(entries, devices).len() >= entries.len(),
        forall|i: int| 0 <= i < entries.len() ==> #[trigger] add_missing(entries, devices)[i] == entries[i],
    decreases devices.len(),
{
    if devices.len() > 0 {
        lemma_add_missing_extends(entries, devices.drop_last());
    }
}

proof fn lemma_prune_keeps(entries: Seq<Timeout>, devices: Seq<BluetoothDevice>, elapsed: nat, i: int)
    requires
        0 <= i < entries.len(),
        is_connected(devices, entries[i].mac_address),
    ensures
        advance_and_prune(entries, devices, elapsed).contains(advanced(entries[i], elapsed)),
    decreases entries.len(),
{
    let init = entries.drop_last();
    let r = advance_and_prune(entries, devices, elapsed);
    if i < init.len() {
        assert(init[i] == entries[i]);
        lemma_prune_keeps(init, devices, elapsed, i);
        let rest = advance_and_prune(init, devices, elapsed);
        let q = choose|q: int| 0 <= q < rest.len() && rest[q] == advanced(entries[i], elapsed);
        assert(r[q] == rest[q]);
    } else {
        assert(r[r.len() - 1] == advanced(entries[i], elapsed));
    }
}

/// A pass leaves the entry of a device that is still connected advanced by
/// the elapsed time and otherwise as it was: a countdown that nobody edits
/// follows `advanced_by_all` from pass to pass.
pub proof fn lemma_pass_advances_entry(entries: Seq<Timeout>, devices: Seq<BluetoothDevice>, elapsed: nat, i: int)
    requires
        0 <= i < entries.len(),
        is_connected(devices, entries[i].mac_address),
    ensures
        reconciled(entries, devices, elapsed).contains(advanced(entries[i], elapsed)),
{
    lemma_prune_keeps(entries, devices, elapsed, i);
    let pruned = advance_and_prune(entries, devices, elapsed);
    lemma_add_missing_extends(pruned, devices);
    let q = choose|q: int| 0 <= q < pruned.len() && pruned[q] == advanced(entries[i], elapsed);
    assert(reconciled(entries, devices, elapsed)[q] == pruned[q]);
}

/// A pass keeps every entry well formed.
proof fn lemma_reconciled_wf(entries: Seq<Timeout>, devices: Seq<BluetoothDevice>, elapsed: nat)
    requires
        forall|i: int| 0 <= i < entries.len() ==> (#[trigger] entries[i]).wf(),
    ensures
        forall|i: int|
            0 <= i < reconciled(entries, devices, elapsed).len() ==> (#[trigger] reconciled(entries, devices, elapsed)[i]).wf(),
{
    lemma_advance_and_prune(entries, devices, elapsed);
    lemma_add_missing(advance_and_prune(entries, devices, elapsed), devices);
}


/// `t` after one pass for each of the elapsed times of `steps`, in order.
pub open spec fn advanced_by_all(t: Timeout, steps: Seq<Duration>) -> Timeout
    decreases steps.len(),
{
    if steps.len() == 0 {
        t
    } else {
        advanced(advanced_by_all(t, steps.drop_last()), steps.last()@)
    }
}

/// The sum of the elapsed times of `steps`, in nanoseconds.
pub open spec fn total_elapsed(steps: Seq<Duration>) -> nat
    decreases steps.len(),
{
    if steps.len() == 0 {
        0
    } else {
        total_elapsed(steps.drop_last()) + steps.last()@
    }
}

/// A countdown of `D` left alone goes down by the time that passes and stays
/// at zero once the total reaches `D`; a pass asks for the removal exactly
/// when the total up to and including it has reached `D`, so every pass from
/// then on asks again.
pub proof fn lemma_countdown(t: Timeout, steps: Seq<Duration>)
    requires
        t.duration is Some,
    ensures
        advanced_by_all(t, steps).mac_address == t.mac_address,
        advanced_by_all(t, steps).remove_on_close == t.remove_on_close,
        advanced_by_all(t, steps).duration is Some,
        advanced_by_all(t, steps).duration.unwrap()@ == if total_elapsed(steps) >= t.duration.unwrap()@ {
            0
        } else {
            t.duration.unwrap()@ - total_elapsed(steps)
        },
        steps.len() > 0 ==> (expires(advanced_by_all(t, steps.drop_last()), steps.last()@)
            <==> total_elapsed(steps) >= t.duration.unwrap()@),
    decreases steps.len(),
{
    if steps.len() > 0 {
        lemma_countdown(t, steps.drop_last());
    }
}

/// A disabled countdown never asks for a removal, however much time passes,
/// and stays disabled.
pub proof fn lemma_disabled_never_expires(t: Timeout, steps: Seq<Duration>)
    requires
        t.duration is None,
    ensures
        advanced_by_all(t, steps) == t,
        forall|i: int| 0 <= i < steps.len() ==> !expires(advanced_by_all(t, steps.take(i)), #[trigger] steps[i]@),
    decreases steps.len(),
{
    if steps.len() > 0 {
        let init = steps.drop_last();
        lemma_disabled_never_expires(t, init);
        assert forall|i: int| 0 <= i < steps.len() implies !expires(advanced_by_all(t, steps.take(i)), #[trigger] steps[i]@) by {
            if i < init.len() {
                assert(steps.take(i) == init.take(i));
                assert(steps[i] == init[i]);
            } else {
                assert(steps.take(i) == init);
            }
        }
    }
}

/// The removals of a pass: an address is asked for where its entry expires,
/// and once at most where no two entries share an address.
pub proof fn lemma_removals_of_pass(entries: Seq<Timeout>, elapsed: nat)
    ensures
        forall|m: MacAddress|
            expired_ids(entries, elapsed).contains(m) <==> exists|i: int|
                0 <= i < entries.len() && #[trigger] entries[i].mac_address == m && expires(entries[i], elapsed),
        unique_entries(entries) ==> expired_ids(entries, elapsed).no_duplicates(),
    decreases entries.len(),
{
    if entries.len() > 0 {
        let init = entries.drop_last();
        let t = entries.last();
        let rest = expired_ids(init, elapsed);
        let r = expired_ids(entries, elapsed);
        lemma_removals_of_pass(init, elapsed);
        assert forall|m: MacAddress|
            r.contains(m) <==> exists|i: int|
                0 <= i < entries.len() && #[trigger] entries[i].mac_address == m && expires(entries[i], elapsed) by {
            if r.contains(m) {
                let q = choose|q: int| 0 <= q < r.len() && r[q] == m;
                if q < rest.len() {
                    assert(rest.contains(m));
                    let i = choose|i: int| 0 <= i < init.len() && #[trigger] init[i].mac_address == m && expires(init[i], elapsed);
                    assert(entries[i] == init[i]);
                } else {
                    assert(entries[entries.len() - 1] == t);
                }
            }
            if exists|i: int| 0 <= i < entries.len() && #[trigger] entries[i].mac_address == m && expires(entries[i], elapsed) {
                let i = choose|i: int| 0 <= i < entries.len() && #[trigger] entries[i].mac_address == m && expires(entries[i], elapsed);
                if i < init.len() {
                    assert(init[i] == entries[i]);
                    assert(rest.contains(m));
                    let q = choose|q: int| 0 <= q < rest.len() && rest[q] == m;
                    assert(r[q] == m);
                } else {
                    assert(r[r.len() - 1] == m);
                }
            }
        }
        if unique_entries(entries) {
            assert(unique_entries(init)) by {
                assert forall|i: int, j: int|
                    0 <= i < init.len() && 0 <= j < init.len() && #[trigger] init[i].mac_address
                        == #[trigger] init[j].mac_address implies i == j by {
                    assert(entries[i] == init[i] && entries[j] == init[j]);
                }
            }
            if expires(t, elapsed) {
                assert(!rest.contains(t.mac_address)) by {
                    if rest.contains(t.mac_address) {
                        let i = choose|i: int| 0 <= i < init.len() && #[trigger] init[i].mac_address == t.mac_address && expires(init[i], elapsed);
                        assert(entries[i].mac_address == entries[entries.len() - 1].mac_address);
                    }
                }
                assert forall|i: int, j: int| 0 <= i < r.len() && 0 <= j < r.len() && i != j implies r[i] != r[j] by {
                    if i < rest.len() && j == rest.len() {
                        assert(rest[i] == r[i]);
                    }
                    if j < rest.len() && i == rest.len() {
                        assert(rest[j] == r[j]);
                    }
                }
            }
        }
    }
}

/// At exit an address is asked for exactly where an entry for it is flagged
/// "remove on close", and once at most where no two entries share an address.
pub proof fn lemma_exit_removals(entries: Seq<Timeout>)
    ensures
        forall|m: MacAddress|
            removed_on_close(entries).contains(m) <==> exists|i: int|
                0 <= i < entries.len() && #[trigger] entries[i].mac_address == m && entries[i].remove_on_close,
        unique_entries(entries) ==> removed_on_close(entries).no_duplicates(),
    decreases entries.len(),
{
    if entries.len() > 0 {
        let init = entries.drop_last();
        let t = entries.last();
        let rest = removed_on_close(init);
        let r = removed_on_close(entries);
        lemma_exit_removals(init);
        assert forall|m: MacAddress|
            r.contains(m) <==> exists|i: int|
                0 <= i < entries.len() && #[trigger] entries[i].mac_address == m && entries[i].remove_on_close by {
            if r.contains(m) {
                let q = choose|q: int| 0 <= q < r.len() && r[q] == m;
                if q < rest.len() {
                    assert(rest.contains(m));
                    let i = choose|i: int| 0 <= i < init.len() && #[trigger] init[i].mac_address == m && init[i].remove_on_close;
                    assert(entries[i] == init[i]);
                } else {
                    assert(entries[entries.len() - 1] == t);
                }
            }
            if exists|i: int| 0 <= i < entries.len() && #[trigger] entries[i].mac_address == m && entries[i].remove_on_close {
                let i = choose|i: int| 0 <= i < entries.len() && #[trigger] entries[i].mac_address == m && entries[i].remove_on_close;
                if i < init.len() {
                    assert(init[i] == entries[i]);
                    assert(rest.contains(m));
                    let q = choose|q: int| 0 <= q < rest.len() && rest[q] == m;
                    assert(r[q] == m);
                } else {
                    assert(r[r.len() - 1] == m);
                }
            }
        }
        if unique_entries(entries) {
            assert(unique_entries(init)) by {
                assert forall|i: int, j: int|
                    0 <= i < init.len() && 0 <= j < init.len() && #[trigger] init[i].mac_address
                        == #[trigger] init[j].mac_address implies i == j by {
                    assert(entries[i] == init[i] && entries[j] == init[j]);
                }
            }
            if t.remove_on_close {
                assert(!rest.contains(t.mac_address)) by {
                    if rest.contains(t.mac_address) {
                        let i = choose|i: int| 0 <= i < init.len() && #[trigger] init[i].mac_address == t.mac_address && init[i].remove_on_close;
                        assert(entries[i].mac_address == entries[entries.len() - 1].mac_address);
                    }
                }
                assert forall|i: int, j: int| 0 <= i < r.len() && 0 <= j < r.len() && i != j implies r[i] != r[j] by {
                    if i < rest.len() && j == rest.len() {
                        assert(rest[i] == r[i]);
                    }
                    if j < rest.len() && i == rest.len() {
                        assert(rest[j] == r[j]);
                    }
                }
            }
        }
    }
}

/// The devices of `devices` are ordered by address.
pub open spec fn sorted_by_address(devices: Seq<BluetoothDevice>) -> bool {
    forall|i: int, j: int| 0 <= i <= j < devices.len() ==> mac_key(devices[i].mac_address) <= mac_key(devices[j].mac_address)
}

/// The devices of `devices`, ordered by address.
fn sort_by_address(devices: Vec<BluetoothDevice>) -> (r: Vec<BluetoothDevice>)
    ensures
        r@.to_multiset() == devices@.to_multiset(),
        sorted_by_address(r@),
{
    broadcast use vstd::seq_lib::group_to_multiset_ensures;

    let mut rest = devices;
    let mut out: Vec<BluetoothDevice> = Vec::new();
    while rest.len() > 0
        invariant
            out@.to_multiset().add(rest@.to_multiset()) == devices@.to_multiset(),
            sorted_by_address(out@),
            forall|i: int, j: int|
                0 <= i < out.len() && 0 <= j < rest.len() ==> mac_key(out@[i].mac_address) <= mac_key(
                    rest@[j].mac_address,
                ),
        decreases rest.len(),
    {
        let mut min: usize = 0;
        let mut min_key: u64 = rest[0].mac_address.key();
        let mut k: usize = 1;
        while k < rest.len()
            invariant
                0 <= min < k <= rest.len(),
                min_key == mac_key(rest@[min as int].mac_address),
                forall|j: int| 0 <= j < k ==> min_key <= mac_key(rest@[j].mac_address),
            decreases rest.len() - k,
        {
            let key = rest[k].mac_address.key();
            if key < min_key {
                min = k;
                min_key = key;
            }
            k += 1;
        }
        let ghost before = rest@;
        let d = rest.remove(min);
        assert(before.remove(min as int) == rest@);
        assert(forall|j: int| 0 <= j < rest.len() ==> #[trigger] rest@[j] == before[if j < min { j } else { j + 1 }]);
        let ghost out_before = out@;
        out.push(d);
        assert(d == before[min as int]);
        assert(before.contains(d));
        proof {
            before.to_multiset_ensures();
            out_before.to_multiset_ensures();
        }
        assert(rest@.to_multiset() == before.to_multiset().remove(d));
        assert(out@ == out_before.push(d));
        assert(out@.to_multiset() == out_before.to_multiset().insert(d));
        assert(before.to_multiset().count(d) > 0);
        assert(out@.to_multiset().add(rest@.to_multiset()) =~= out_before.to_multiset().add(before.to_multiset()));
    }
    assert(rest@.to_multiset() =~= Multiset::empty());
    assert(out@.to_multiset() =~= devices@.to_multiset());
    out
}

/// The state of the application that the user interface shows and edits.
pub struct BluetoothApp {
    /// The devices of the last scan, ordered by address.
    pub devices: Vec<BluetoothDevice>,
    /// One entry per connected device, after each reconciliation pass.
    pub timeouts: Vec<Timeout>,
    /// Whether a scan was started and its result has not come in.
    pub scan_pending: bool,
    /// The timeout dialog, where one is open.
    pub editing: Option<TimeoutEditing>,
}

impl BluetoothApp {
    /// One entry at most per address, each with a well-formed countdown.
    pub open spec fn wf(&self) -> bool {
        &&& unique_entries(self.timeouts@)
        &&& forall|i: int| 0 <= i < self.timeouts@.len() ==> (#[trigger] self.timeouts@[i]).wf()
    }

    /// No devices, no entries, no scan under way and no dialog.
    pub fn new_now() -> (r: BluetoothApp)
        ensures
            r.devices@.len() == 0,
            r.timeouts@.len() == 0,
            !r.scan_pending,
            r.editing is None,
            r.wf(),
    {
        BluetoothApp { devices: Vec::new(), timeouts: Vec::new(), scan_pending: false, editing: None }
    }

    /// Marks a scan as started; its result is taken in by
    /// `try_update_with_scan_result`.
    pub fn start_scan(&mut self)
        ensures
            final(self).scan_pending,
            final(self).devices@ == old(self).devices@,
            final(self).timeouts@ == old(self).timeouts@,
            final(self).editing == old(self).editing,
    {
        self.scan_pending = true;
    }

    /// Takes in what a started scan `received`, if anything came in. A list
    /// of devices replaces the current one, ordered by address; an error
    /// leaves the devices as they were and is handed back to be reported.
    /// Either way the scan is over. Without a scan under way nothing changes.
    pub fn try_update_with_scan_result(&mut self, received: Option<Result<Vec<BluetoothDevice>, DiscoverDevicesError>>) -> (failure: Option<DiscoverDevicesError>)
        ensures
            final(self).timeouts@ == old(self).timeouts@,
            final(self).editing == old(self).editing,
            if old(self).scan_pending && received is Some {
                !final(self).scan_pending
            } else {
                final(self).scan_pending == old(self).scan_pending
            },
            match received {
                Some(Ok(devices)) if old(self).scan_pending => final(self).devices@.to_multiset()
                    == devices@.to_multiset() && sorted_by_address(final(self).devices@) && failure is None,
                Some(Err(e)) if old(self).scan_pending => final(self).devices@ == old(self).devices@
                    && failure == Some(e),
                _ => final(self).devices@ == old(self).devices@ && failure is None,
            },
    {
        if !self.scan_pending {
            return None;
        }
        match received {
            None => None,
            Some(Ok(devices)) => {
                self.devices = sort_by_address(devices);
                self.scan_pending = false;
                None
            },
            Some(Err(e)) => {
                self.scan_pending = false;
                Some(e)
            },
        }
    }

    /// Takes in the outcomes of removals and connections that finished since
    /// the previous frame. Where any finished, the devices may have changed,
    /// and a new scan is started; the errors among them are the caller's to
    /// report. Tells whether a scan was started.
    pub fn check_remove_connect_res(
        &mut self,
        remove_results: &Vec<Result<(), RemoveDeviceError>>,
        connect_results: &Vec<Result<(), ConnectToDeviceError>>,
    ) -> (rescan: bool)
        ensures
            rescan == (remove_results@.len() > 0 || connect_results@.len() > 0),
            final(self).scan_pending == (rescan || old(self).scan_pending),
            final(self).devices@ == old(self).devices@,
            final(self).timeouts@ == old(self).timeouts@,
            final(self).editing == old(self).editing,
    {
        let rescan = remove_results.len() > 0 || connect_results.len() > 0;
        if rescan {
            self.start_scan();
        }
        rescan
    }

    /// Clears the entries at exit and returns the addresses whose pairing is
    /// to be removed, those flagged "remove on close", in order.
    pub fn on_exit(&mut self) -> (removals: Vec<MacAddress>)
        ensures
            removals@ == removed_on_close(old(self).timeouts@),
            final(self).timeouts@.len() == 0,
            final(self).devices@ == old(self).devices@,
            final(self).scan_pending == old(self).scan_pending,
            final(self).editing == old(self).editing,
    {
        let mut removals: Vec<MacAddress> = Vec::new();
        let mut i: usize = 0;
        while i < self.timeouts.len()
            invariant
                0 <= i <= self.timeouts.len(),
                self.timeouts@ == old(self).timeouts@,
                removals@ == removed_on_close(self.timeouts@.take(i as int)),
            decreases self.timeouts.len() - i,
        {
            if self.timeouts[i].remove_on_close {
                removals.push(self.timeouts[i].mac_address);
            }
            assert(self.timeouts@.take(i + 1).drop_last() == self.timeouts@.take(i as int));
            i += 1;
        }
        assert(self.timeouts@.take(i as int) == self.timeouts@);
        self.timeouts = Vec::new();
        removals
    }

    /// Opens the timeout dialog for the device `mac_address`.
    pub fn start_editing(&mut self, mac_address: MacAddress)
        ensures
            final(self).editing matches Some(e) && e.mac_address == mac_address && !e.buffer_prev_had_focus
                && e.text_edit_buffer@.len() == 0,
            final(self).devices@ == old(self).devices@,
            final(self).timeouts@ == old(self).timeouts@,
            final(self).scan_pending == old(self).scan_pending,
    {
        self.editing = Some(TimeoutEditing::new_of(mac_address));
    }

    /// The position of the entry that the open dialog edits. A dialog whose
    /// device left the scan, or has no entry, is closed, and `None` returned.
    pub fn editing_target(&mut self) -> (r: Option<usize>)
        ensures
            final(self).devices@ == old(self).devices@,
            final(self).timeouts@ == old(self).timeouts@,
            final(self).scan_pending == old(self).scan_pending,
            match old(self).editing {
                None => r is None && final(self).editing is None,
                Some(e) => if has_entry(old(self).timeouts@, e.mac_address) && exists|i: int|
                    0 <= i < old(self).devices@.len() && #[trigger] old(self).devices@[i].mac_address
                        == e.mac_address {
                    r matches Some(k) && k < old(self).timeouts@.len() && old(self).timeouts@[k as int].mac_address
                        == e.mac_address && final(self).editing == old(self).editing
                } else {
                    r is None && final(self).editing is None
                },
            },
    {
        let m = match &self.editing {
            None => return None,
            Some(e) => e.mac_address,
        };
        if device_listed(&self.devices, m) {
            let k = entry_position(&self.timeouts, m);
            if k.is_some() {
                return k;
            }
        }
        self.editing = None;
        None
    }

    /// One reconciliation pass, `elapsed` after the previous one.
    ///
    /// Every active countdown goes down by `elapsed`; one that reaches zero
    /// stays there, and its address is returned to have the device removed.
    /// Then the entries of devices that are no longer connected go, and each
    /// connected device without an entry gets a default one.
    pub fn process_timeout(&mut self, elapsed: &Duration) -> (removals: Vec<MacAddress>)
        ensures
            final(self).timeouts@ == reconciled(old(self).timeouts@, old(self).devices@, elapsed@),
            removals@ == expired_ids(old(self).timeouts@, elapsed@),
            final(self).devices@ == old(self).devices@,
            final(self).scan_pending == old(self).scan_pending,
            final(self).editing == old(self).editing,
            entry_ids(final(self).timeouts@) == connected_ids(final(self).devices@),
            old(self).wf() ==> final(self).wf(),
    {
        proof {
            lemma_entries_match_connected(self.timeouts@, self.devices@, elapsed@);
            if self.wf() {
                lemma_reconciled_wf(self.timeouts@, self.devices@, elapsed@);
            }
        }
        let mut removals: Vec<MacAddress> = Vec::new();
        let mut kept: Vec<Timeout> = Vec::new();
        let mut i: usize = 0;
        while i < self.timeouts.len()
            invariant
                0 <= i <= self.timeouts.len(),
                self.timeouts@ == old(self).timeouts@,
                self.devices@ == old(self).devices@,
                self.scan_pending == old(self).scan_pending,
                self.editing == old(self).editing,
                kept@ == advance_and_prune(self.timeouts@.take(i as int), self.devices@, elapsed@),
                removals@ == expired_ids(self.timeouts@.take(i as int), elapsed@),
            decreases self.timeouts.len() - i,
        {
            let mut t = self.timeouts[i];
            let expired = t.advance(elapsed);
            if expired {
                removals.push(t.mac_address);
            }
            if connected_in(&self.devices, t.mac_address) {
                kept.push(t);
            }
            assert(self.timeouts@.take(i + 1).drop_last() == self.timeouts@.take(i as int));
            i += 1;
        }
        assert(self.timeouts@.take(i as int) == self.timeouts@);
        let ghost pruned = kept@;
        let mut j: usize = 0;
        while j < self.devices.len()
            invariant
                0 <= j <= self.devices.len(),
                self.devices@ == old(self).devices@,
                self.scan_pending == old(self).scan_pending,
                self.editing == old(self).editing,
                kept@ == add_missing(pruned, self.devices@.take(j as int)),
            decreases self.devices.len() - j,
        {
            let m = self.devices[j].mac_address;
            if self.devices[j].connected && !entry_in(&kept, m) {
                kept.push(Timeout::default_from(m));
            }
            assert(self.devices@.take(j + 1).drop_last() == self.devices@.take(j as int));
            j += 1;
        }
        assert(self.devices@.take(j as int) == self.devices@);
        self.timeouts = kept;
        removals
    }
}

} // verus!
