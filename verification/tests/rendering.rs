//! Panel text, rendered by the records themselves.

use simple_sys_info::sys_stats::cpu::CpuMeasurements;
use simple_sys_info::sys_stats::cpu::CpuTime;
use simple_sys_info::sys_stats::disk::DiskStatMeasurements;
use simple_sys_info::sys_stats::disk::Sd;
use simple_sys_info::sys_stats::memory::MemoryMeasurments;
use simple_sys_info::sys_stats::nvidia_gpu::NvidiaGpuMeasurements;
use simple_sys_info::sys_stats::socket::SocketStatMeasurements;
use simple_sys_info::text::milli_to_string;
use simple_sys_info::text::u64_to_string;
use simple_sys_info::Measurements;
use simple_sys_info::Snapshot;

#[test]
fn numbers_are_written_in_decimal() {
    assert_eq!(u64_to_string(0), "0");
    assert_eq!(u64_to_string(51123), "51123");
    assert_eq!(u64_to_string(u64::MAX), "18446744073709551615");
}

#[test]
fn milli_values_are_written_with_three_decimals() {
    assert_eq!(milli_to_string(25310), "25.310");
    assert_eq!(milli_to_string(36000), "36.000");
    assert_eq!(milli_to_string(5), "0.005");
    assert_eq!(milli_to_string(51123), "51.123");
}

#[test]
fn memory_panel_text() {
    let m = MemoryMeasurments::new(16384, 2048, 8192);
    assert_eq!(
        m.info_text(),
        "mem total: \t16384 kB\nmem free: \t2048 kB\nmem avail: \t8192 kB"
    );
}

#[test]
fn socket_panel_text() {
    let s = SocketStatMeasurements::new(8, 3, 1);
    assert_eq!(s.info_text(), "TCP: \t\t8 \nUDP: \t\t3 \nUPD lite: \t1");
}

#[test]
fn cpu_panel_text_has_one_line_per_core() {
    let cores = vec![
        CpuTime::new(String::from("cpu0"), 4705, 1234, 5678, 51123),
        CpuTime::new(String::from("cpu1"), 0, 0, 0, 0),
    ];
    let m = CpuMeasurements::new(cores);
    assert_eq!(
        m.info_text(),
        "cpu0 use: \t51.123 %\ncpu1 use: \t0.000 %\n"
    );
}

#[test]
fn disk_panel_text_lists_each_device() {
    let sd = Sd::new(String::from("sda"), String::from("8.0"), 157698, 789012, 0);
    let d = DiskStatMeasurements::new(vec![sd]);
    assert_eq!(
        d.info_text(),
        "sda, \nversion: 8.0, \nreads completed successfully: 157698, \nwrites completed successfully: 789012, \nI/Os currently in progress: 0\n"
    );
}

#[test]
fn gpu_panel_text() {
    let g = NvidiaGpuMeasurements::new(
        String::from("NVIDIA GeForce RTX 3070"),
        String::from("Ampere"),
        36,
        93,
        25310,
        240000,
        3000,
    );
    assert_eq!(
        g.info_text(),
        "GPU name: \tNVIDIA GeForce RTX 3070 \nGPU temp: \t36 \nGPU util: \t3.000 \nGPU power: \t25.310"
    );
}

#[test]
fn snapshot_text_is_its_payloads() {
    let m = MemoryMeasurments::new(1, 2, 3);
    let expected = m.info_text();
    assert_eq!(Snapshot::Memory(m).info_text(), expected);
}
