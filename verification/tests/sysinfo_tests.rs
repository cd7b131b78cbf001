use skadi::payload::OpCode;
use skadi::payload::Payload;
use skadi::payload::PayloadData;
use skadi::sysinfo::DiskSample;
use skadi::sysinfo::NetworkSample;
use skadi::sysinfo::SysinfoPayload;
use skadi::sysinfo::SystemSample;

fn system() -> SystemSample {
    SystemSample {
        cpu_usage_bits: 37.5f32.to_bits(),
        used_memory: 100,
        total_memory: 400,
        available_memory: 300,
        used_swap: 5,
        total_swap: 50,
    }
}

fn disk(mount_point: &str, total_space: u64, available_space: u64) -> DiskSample {
    DiskSample {
        mount_point: mount_point.to_string(),
        read_bytes: total_space / 2,
        written_bytes: total_space / 4,
        total_space,
        available_space,
    }
}

fn net(received: u64, transmitted: u64) -> NetworkSample {
    NetworkSample { received, transmitted }
}

#[test]
fn snapshot_sums_the_interfaces_and_takes_the_root_disk() {
    let networks = vec![net(10, 1), net(20, 2), net(30, 3)];
    let disks = vec![disk("/boot", 1000, 400), disk("/", 8000, 3000), disk("/home", 500, 100)];
    let snapshot = SysinfoPayload::from_samples(&system(), &networks, &disks);
    assert_eq!(
        snapshot,
        Some(SysinfoPayload {
            cpu_usage_bits: 37.5f32.to_bits(),
            memory_used: 100,
            memory_total: 400,
            memory_free: 300,
            swap_used: 5,
            swap_total: 50,
            network_rx: 60,
            network_tx: 6,
            disk_read: 4000,
            disk_write: 2000,
            disk_usage: 5000,
            disk_total: 8000,
            disk_free: 3000,
        })
    );
    assert_eq!(f32::from_bits(snapshot.unwrap().cpu_usage_bits), 37.5);
}

#[test]
fn snapshot_without_a_root_disk_has_zero_disk_fields() {
    let disks =
        vec![disk("/boot", 1000, 400), disk("//", 10, 1), disk("", 10, 1), disk("/ ", 9, 1)];
    let snapshot = SysinfoPayload::from_samples(&system(), &vec![], &disks).unwrap();
    assert_eq!(snapshot.disk_read, 0);
    assert_eq!(snapshot.disk_write, 0);
    assert_eq!(snapshot.disk_usage, 0);
    assert_eq!(snapshot.disk_total, 0);
    assert_eq!(snapshot.disk_free, 0);
    assert_eq!(snapshot.network_rx, 0);
    assert_eq!(snapshot.network_tx, 0);
    let snapshot = SysinfoPayload::from_samples(&system(), &vec![], &vec![]).unwrap();
    assert_eq!(snapshot.disk_total, 0);
    assert_eq!(snapshot.memory_total, 400);
}

#[test]
fn the_first_root_disk_counts() {
    let disks = vec![disk("/", 100, 40), disk("/", 900, 100)];
    let snapshot = SysinfoPayload::from_samples(&system(), &vec![], &disks).unwrap();
    assert_eq!(snapshot.disk_total, 100);
    assert_eq!(snapshot.disk_free, 40);
    assert_eq!(snapshot.disk_usage, 60);
}

#[test]
fn a_full_and_an_empty_root_disk() {
    let snapshot = SysinfoPayload::from_samples(&system(), &vec![], &vec![disk("/", 100, 100)]);
    assert_eq!(snapshot.unwrap().disk_usage, 0);
    let snapshot = SysinfoPayload::from_samples(&system(), &vec![], &vec![disk("/", 100, 0)]);
    assert_eq!(snapshot.unwrap().disk_usage, 100);
}

#[test]
fn totals_at_the_limit() {
    let networks = vec![net(u64::MAX - 1, 0), net(1, u64::MAX)];
    let snapshot = SysinfoPayload::from_samples(&system(), &networks, &vec![]).unwrap();
    assert_eq!(snapshot.network_rx, u64::MAX);
    assert_eq!(snapshot.network_tx, u64::MAX);
}

#[test]
fn totals_past_the_limit_give_no_snapshot() {
    let networks = vec![net(u64::MAX, 0), net(1, 0)];
    assert_eq!(SysinfoPayload::from_samples(&system(), &networks, &vec![]), None);
    let networks = vec![net(0, 1), net(0, u64::MAX), net(0, 0)];
    assert_eq!(SysinfoPayload::from_samples(&system(), &networks, &vec![]), None);
}

#[test]
fn a_root_disk_with_more_free_than_total_gives_no_snapshot() {
    let disks = vec![disk("/", 100, 101)];
    assert_eq!(SysinfoPayload::from_samples(&system(), &vec![], &disks), None);
    let disks = vec![disk("/boot", 100, 101), disk("/", 100, 50)];
    assert!(SysinfoPayload::from_samples(&system(), &vec![], &disks).is_some());
}

#[test]
fn snapshot_is_a_sysinfo_payload() {
    let snapshot = SysinfoPayload::from_samples(&system(), &vec![], &vec![]).unwrap();
    assert_eq!(snapshot.op(), OpCode::Sysinfo);
    assert_eq!(Payload::new(snapshot).op(), 1);
}
