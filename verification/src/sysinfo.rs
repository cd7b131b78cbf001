//! The metrics adapter: one snapshot of the host out of one round of
//! samples.

use vstd::prelude::*;

use crate::payload::OpCode;
use crate::payload::PayloadData;
use crate::text::same_text;
use crate::wire::field_views;
use crate::wire::Wire;
use crate::wire::WireField;
use crate::wire::WireValue;

verus! {

/// Processor, memory and swap figures of one sample. The processor usage is
/// a single-precision number, held here by its bit pattern.
#[derive(Clone, Copy, Debug, PartialEq, Eq)]
pub struct SystemSample {
    pub cpu_usage_bits: u32,
    pub used_memory: u64,
    pub total_memory: u64,
    pub available_memory: u64,
    pub used_swap: u64,
    pub total_swap: u64,
}

/// The byte counters of one network interface.
#[derive(Clone, Copy, Debug, PartialEq, Eq)]
pub struct NetworkSample {
    pub received: u64,
    pub transmitted: u64,
}

/// One mounted file system.
#[derive(Clone, Debug, PartialEq, Eq)]
pub struct DiskSample {
    pub mount_point: String,
    pub read_bytes: u64,
    pub written_bytes: u64,
    pub total_space: u64,
    pub available_space: u64,
}

/// A point-in-time snapshot of the host. The network counters are summed
/// over all interfaces; the disk figures are those of the file system
/// mounted at the root, and zero where there is none.
#[derive(Clone, Copy, Debug, PartialEq, Eq)]
pub struct SysinfoPayload {
    pub cpu_usage_bits: u32,
    pub memory_used: u64,
    pub memory_total: u64,
    pub memory_free: u64,
    pub swap_used: u64,
    pub swap_total: u64,
    pub network_rx: u64,
    pub network_tx: u64,
    pub disk_read: u64,
    pub disk_write: u64,
    pub disk_usage: u64,
    pub disk_total: u64,
    pub disk_free: u64,
}

impl PayloadData for SysinfoPayload {
    open spec fn opcode(&self) -> OpCode {
        OpCode::Sysinfo
    }

    open spec fn wire(&self) -> Wire {
        Wire::Record(
            seq![
                ("cpuUsage"@, Wire::Single(self.cpu_usage_bits)),
                ("memoryUsed"@, Wire::Integer(self.memory_used)),
                ("memoryTotal"@, Wire::Integer(self.memory_total)),
                ("memoryFree"@, Wire::Integer(self.memory_free)),
                ("swapUsed"@, Wire::Integer(self.swap_used)),
                ("swapTotal"@, Wire::Integer(self.swap_total)),
                ("networkRx"@, Wire::Integer(self.network_rx)),
                ("networkTx"@, Wire::Integer(self.network_tx)),
                ("diskRead"@, Wire::Integer(self.disk_read)),
                ("diskWrite"@, Wire::Integer(self.disk_write)),
                ("diskUsage"@, Wire::Integer(self.disk_usage)),
                ("diskTotal"@, Wire::Integer(self.disk_total)),
                ("diskFree"@, Wire::Integer(self.disk_free)),
            ],
        )
    }

    fn op(&self) -> (code: OpCode) {
        OpCode::Sysinfo
    }

    fn to_wire(&self) -> (value: WireValue) {
        let mut fields: Vec<WireField> = Vec::new();
        fields.push(WireField { name: "cpuUsage", value: WireValue::Single(self.cpu_usage_bits) });
        fields.push(WireField { name: "memoryUsed", value: WireValue::Integer(self.memory_used) });
        fields.push(
            WireField { name: "memoryTotal", value: WireValue::Integer(self.memory_total) },
        );
        fields.push(WireField { name: "memoryFree", value: WireValue::Integer(self.memory_free) });
        fields.push(WireField { name: "swapUsed", value: WireValue::Integer(self.swap_used) });
        fields.push(WireField { name: "swapTotal", value: WireValue::Integer(self.swap_total) });
        fields.push(WireField { name: "networkRx", value: WireValue::Integer(self.network_rx) });
        fields.push(WireField { name: "networkTx", value: WireValue::Integer(self.network_tx) });
        fields.push(WireField { name: "diskRead", value: WireValue::Integer(self.disk_read) });
        fields.push(WireField { name: "diskWrite", value: WireValue::Integer(self.disk_write) });
        fields.push(WireField { name: "diskUsage", value: WireValue::Integer(self.disk_usage) });
        fields.push(WireField { name: "diskTotal", value: WireValue::Integer(self.disk_total) });
        fields.push(WireField { name: "diskFree", value: WireValue::Integer(self.disk_free) });
        assert(field_views(fields@) =~= self.wire()->Record_0);
        WireValue::record(fields)
    }
}

/// Bytes received over all of `networks`.
pub open spec fn total_received(networks: Seq<NetworkSample>) -> nat
    decreases networks.len(),
{
    if networks.len() == 0 {
        0
    } else {
        total_received(networks.drop_last()) + networks.last().received as nat
    }
}

/// Bytes transmitted over all of `networks`.
pub open spec fn total_transmitted(networks: Seq<NetworkSample>) -> nat
    decreases networks.len(),
{
    if networks.len() == 0 {
        0
    } else {
        total_transmitted(networks.drop_last()) + networks.last().transmitted as nat
    }
}

/// Whether `disk` is mounted at the root of the file system.
pub open spec fn is_root(disk: DiskSample) -> bool {
    disk.mount_point@ == seq!['/']
}

/// The first of `disks` that is mounted at the root.
pub open spec fn root_disk(disks: Seq<DiskSample>) -> Option<DiskSample>
    decreases disks.len(),
{
    if disks.len() == 0 {
        None
    } else if is_root(disks[0]) {
        Some(disks[0])
    } else {
        root_disk(disks.drop_first())
    }
}

/// Whether the disk at `i` is the first of `disks` that is mounted at the
/// root.
pub open spec fn first_root_at(disks: Seq<DiskSample>, i: int) -> bool {
    &&& 0 <= i < disks.len()
    &&& is_root(disks[i])
    &&& forall|j: int| 0 <= j < i ==> !is_root(#[trigger] disks[j])
}

/// The root disk is the first disk that is mounted at the root; there is
/// none only where no disk is mounted there.
pub proof fn lemma_root_disk(disks: Seq<DiskSample>)
    ensures
        match root_disk(disks) {
            Some(root) => exists|i: int| first_root_at(disks, i) && #[trigger] disks[i] == root,
            None => forall|j: int| 0 <= j < disks.len() ==> !is_root(#[trigger] disks[j]),
        },
    decreases disks.len(),
{
    if disks.len() > 0 {
        if is_root(disks[0]) {
            assert(first_root_at(disks, 0) && disks[0] == root_disk(disks)->0);
        } else {
            let rest = disks.drop_first();
            lemma_root_disk(rest);
            if let Some(root) = root_disk(rest) {
                let i = choose|i: int| first_root_at(rest, i) && #[trigger] rest[i] == root;
                assert forall|j: int| 0 <= j < i + 1 implies !is_root(#[trigger] disks[j]) by {
                    if j > 0 {
                        assert(disks[j] == rest[j - 1]);
                    }
                }
                assert(first_root_at(disks, i + 1) && disks[i + 1] == root);
            } else {
                assert forall|j: int| 0 <= j < disks.len() implies !is_root(
                    #[trigger] disks[j],
                ) by {
                    if j > 0 {
                        assert(disks[j] == rest[j - 1]);
                    }
                }
            }
        }
    }
}

/// The totals of a part of the interfaces are no greater than those of all.
pub proof fn lemma_totals_prefix(networks: Seq<NetworkSample>, k: int)
    requires
        0 <= k <= networks.len(),
    ensures
        total_received(networks.take(k)) <= total_received(networks),
        total_transmitted(networks.take(k)) <= total_transmitted(networks),
    decreases networks.len() - k,
{
    if k == networks.len() {
        assert(networks.take(k) == networks);
    } else {
        lemma_totals_prefix(networks.drop_last(), k);
        assert(networks.drop_last().take(k) == networks.take(k));
    }
}

impl SysinfoPayload {
    /// The snapshot of a host without a root file system: the figures of the
    /// system, the totals `rx` and `tx` of the interfaces, and zero for
    /// every disk figure.
    pub open spec fn diskless(system: SystemSample, rx: u64, tx: u64) -> SysinfoPayload {
        SysinfoPayload {
            cpu_usage_bits: system.cpu_usage_bits,
            memory_used: system.used_memory,
            memory_total: system.total_memory,
            memory_free: system.available_memory,
            swap_used: system.used_swap,
            swap_total: system.total_swap,
            network_rx: rx,
            network_tx: tx,
            disk_read: 0,
            disk_write: 0,
            disk_usage: 0,
            disk_total: 0,
            disk_free: 0,
        }
    }

    /// The snapshot that one round of samples gives. There is none where a
    /// network total does not fit in 64 bits, or where the root file system
    /// reports more space available than it has.
    pub open spec fn sampled(
        system: SystemSample,
        networks: Seq<NetworkSample>,
        disks: Seq<DiskSample>,
    ) -> Option<SysinfoPayload> {
        let rx = total_received(networks);
        let tx = total_transmitted(networks);
        if rx > u64::MAX || tx > u64::MAX {
            None
        } else {
            match root_disk(disks) {
                Some(root) => if root.available_space > root.total_space {
                    None
                } else {
                    Some(
                        SysinfoPayload {
                            disk_read: root.read_bytes,
                            disk_write: root.written_bytes,
                            disk_usage: (root.total_space - root.available_space) as u64,
                            disk_total: root.total_space,
                            disk_free: root.available_space,
                            ..Self::diskless(system, rx as u64, tx as u64)
                        },
                    )
                },
                None => Some(Self::diskless(system, rx as u64, tx as u64)),
            }
        }
    }

    /// Builds the snapshot of one round of samples.
    pub fn from_samples(
        system: &SystemSample,
        networks: &Vec<NetworkSample>,
        disks: &Vec<DiskSample>,
    ) -> (r: Option<SysinfoPayload>)
        ensures
            r == Self::sampled(*system, networks@, disks@),
    {
        let mut rx: u64 = 0;
        let mut tx: u64 = 0;
        let mut i: usize = 0;
        while i < networks.len()
            invariant
                i <= networks.len(),
                rx == total_received(networks@.take(i as int)),
                tx == total_transmitted(networks@.take(i as int)),
            decreases networks.len() - i,
        {
            proof {
                lemma_totals_prefix(networks@, i + 1);
                assert(networks@.take(i + 1).drop_last() == networks@.take(i as int));
            }
            let received = rx.checked_add(networks[i].received);
            let transmitted = tx.checked_add(networks[i].transmitted);
            match (received, transmitted) {
                (Some(r), Some(t)) => {
                    rx = r;
                    tx = t;
                },
                _ => {
                    return None;
                },
            }
            i = i + 1;
        }
        assert(networks@.take(i as int) == networks@);
        let mut snapshot = SysinfoPayload {
            cpu_usage_bits: system.cpu_usage_bits,
            memory_used: system.used_memory,
            memory_total: system.total_memory,
            memory_free: system.available_memory,
            swap_used: system.used_swap,
            swap_total: system.total_swap,
            network_rx: rx,
            network_tx: tx,
            disk_read: 0,
            disk_write: 0,
            disk_usage: 0,
            disk_total: 0,
            disk_free: 0,
        };
        let mut k: usize = 0;
        assert(disks@.skip(0) == disks@);
        while k < disks.len()
            invariant
                k <= disks.len(),
                rx == total_received(networks@),
                tx == total_transmitted(networks@),
                snapshot == Self::diskless(*system, rx, tx),
                root_disk(disks@) == root_disk(disks@.skip(k as int)),
            decreases disks.len() - k,
        {
            let disk = &disks[k];
            proof {
                reveal_strlit("/");
                assert("/"@ =~= seq!['/']);
                assert(disks@.skip(k as int)[0] == disks@[k as int]);
                assert(disks@.skip(k as int).drop_first() == disks@.skip(k + 1));
            }
            if same_text(disk.mount_point.as_str(), "/") {
                if disk.available_space > disk.total_space {
                    return None;
                }
                snapshot.disk_read = disk.read_bytes;
                snapshot.disk_write = disk.written_bytes;
                snapshot.disk_usage = disk.total_space - disk.available_space;
                snapshot.disk_total = disk.total_space;
                snapshot.disk_free = disk.available_space;
                return Some(snapshot);
            }
            k = k + 1;
        }
        Some(snapshot)
    }
}

/// On the wire a snapshot has these thirteen fields and no other, and
/// travels under the number 1.
pub proof fn lemma_wire_fields(snapshot: SysinfoPayload)
    ensures
        snapshot.opcode().number() == 1,
        snapshot.wire().names() == seq![
            "cpuUsage"@,
            "memoryUsed"@,
            "memoryTotal"@,
            "memoryFree"@,
            "swapUsed"@,
            "swapTotal"@,
            "networkRx"@,
            "networkTx"@,
            "diskRead"@,
            "diskWrite"@,
            "diskUsage"@,
            "diskTotal"@,
            "diskFree"@,
        ],
{
    assert(snapshot.wire().names() =~= seq![
        "cpuUsage"@,
        "memoryUsed"@,
        "memoryTotal"@,
        "memoryFree"@,
        "swapUsed"@,
        "swapTotal"@,
        "networkRx"@,
        "networkTx"@,
        "diskRead"@,
        "diskWrite"@,
        "diskUsage"@,
        "diskTotal"@,
        "diskFree"@,
    ]);
}

} // verus!
