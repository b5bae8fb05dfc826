//! Line-parser behavior on concrete source lines.

use simple_sys_info::ParseError;
use simple_sys_info::sys_stats::cpu::extract_cpu_utilization;
use simple_sys_info::sys_stats::cpu::cpu_usage_from_lines;
use simple_sys_info::sys_stats::disk::extract_disk_statistics;
use simple_sys_info::sys_stats::disk::disk_utility_from_lines;
use simple_sys_info::sys_stats::memory::extract_mem_consumption;
use simple_sys_info::sys_stats::memory::memory_consumption_from_lines;
use simple_sys_info::sys_stats::nvidia_gpu::extract_nvidia_gpu_data;
use simple_sys_info::sys_stats::nvidia_gpu::extract_nvidia_gpu_data_milli_value;
use simple_sys_info::sys_stats::nvidia_gpu::extract_nvidia_gpu_data_numeric_value;
use simple_sys_info::sys_stats::nvidia_gpu::nvidia_gpu_from_lines;
use simple_sys_info::sys_stats::socket::extract_socket_stat;
use simple_sys_info::sys_stats::socket::socket_stats_from_lines;
use simple_sys_info::text::parse_milli_u64;
use simple_sys_info::text::parse_u64;
use simple_sys_info::text::split_whitespace_fields;
use simple_sys_info::text::str_contains;

fn assert_approx_eq(a: f64, b: f64, epsilon: f64) {
    assert!(
        (a - b).abs() < epsilon,
        "Values are not approximately equal: {} vs {}",
        a,
        b
    );
}

#[test]
fn test_extract_cpu_utilization() {
    let line = "cpu   4705 0   1234 5678 0 0 0 0 0   0";
    let result = extract_cpu_utilization(line);

    assert!(result.is_ok());
    let cpu_time = result.unwrap();

    assert_eq!(cpu_time.cpu_id(), "cpu");
    assert_eq!(cpu_time.user_time(), 4705);
    assert_eq!(cpu_time.system_time(), 1234);
    assert_eq!(cpu_time.idle_time(), 5678);
    assert_approx_eq(cpu_time.utilization() as f64 / 1000.0, 51.1233, 1e-3);
}

#[test]
fn test_extract_disk_statistics() {
    let line = "8   0 sda   157698 0 123456 0 789012 0 0 0 0 0 0 0 0 0 0 0 0 0 0";
    let result = extract_disk_statistics(line);

    assert!(result.is_ok());
    let sd = result.unwrap();

    assert_eq!(sd.name, "sda");
    assert_eq!(sd.version, "8.0");
    assert_eq!(sd.reads_completed, 157698);
    assert_eq!(sd.writes_completed, 789012);
    assert_eq!(sd.io_in_progress, 0);
}

#[test]
fn test_extract_mem_consumption() {
    let line = "MemTotal:   16384   kB";
    let result = extract_mem_consumption(line);

    assert!(result.is_ok());
    let mem_consumption = result.unwrap();

    assert_eq!(mem_consumption, 16384);
}

#[test]
fn test_extract_socket_stat() {
    let line = "TCP: inuse   8 orphan 0 tw 0   alloc 8 mem 4";
    let result = extract_socket_stat(line);

    assert!(result.is_ok());
    let socket_stat = result.unwrap();

    assert_eq!(socket_stat, 8);
}

#[test]
fn split_drops_repeated_spaces() {
    let fields = split_whitespace_fields("  a  bb   c ");
    let views: Vec<&str> = fields.iter().map(|f| f.as_str()).collect();
    assert_eq!(views, ["a", "bb", "c"]);
}

#[test]
fn split_of_empty_line_has_no_fields() {
    assert!(split_whitespace_fields("").is_empty());
    assert!(split_whitespace_fields("   ").is_empty());
}

#[test]
fn contains_finds_substrings() {
    assert!(str_contains("cpu0 12 3", "cpu"));
    assert!(!str_contains("cpu0 12 3", "cpu "));
    assert!(str_contains("TCP: inuse 8", "TCP: inuse"));
    assert!(str_contains("abc", ""));
    assert!(!str_contains("ab", "abc"));
}

#[test]
fn parse_u64_reads_plain_numbers() {
    assert_eq!(parse_u64("157698"), Ok(157698));
    assert_eq!(parse_u64("0"), Ok(0));
    assert_eq!(parse_u64("18446744073709551615"), Ok(u64::MAX));
}

#[test]
fn parse_u64_rejects_bad_shapes() {
    assert_eq!(parse_u64(""), Err(ParseError::NotNumeric));
    assert_eq!(parse_u64("12a4"), Err(ParseError::NotNumeric));
    assert_eq!(parse_u64("-3"), Err(ParseError::NotNumeric));
    assert_eq!(parse_u64("18446744073709551616"), Err(ParseError::Overflow));
}

#[test]
fn parse_milli_reads_decimals_in_thousandths() {
    assert_eq!(parse_milli_u64("25.31"), Ok(25310));
    assert_eq!(parse_milli_u64("36"), Ok(36000));
    assert_eq!(parse_milli_u64("0.5"), Ok(500));
    assert_eq!(parse_milli_u64("1.2345"), Ok(1234));
    assert_eq!(parse_milli_u64("12."), Err(ParseError::NotNumeric));
    assert_eq!(parse_milli_u64("N/A"), Err(ParseError::NotNumeric));
}

#[test]
fn cpu_utilization_is_truncated_to_milli_percent() {
    // (4705 + 1234) * 100000 / (4705 + 1234 + 5678) == 51123, rounded
    // toward zero.
    let cpu_time = extract_cpu_utilization("cpu0 4705 0 1234 5678").unwrap();
    assert_eq!(cpu_time.utilization(), 51123);
}

#[test]
fn cpu_utilization_is_zero_when_no_time_recorded() {
    let cpu_time = extract_cpu_utilization("cpu7 0 0 0 0 0").unwrap();
    assert_eq!(cpu_time.utilization(), 0);
}

#[test]
fn cpu_line_with_too_few_fields_is_missing_field() {
    assert!(matches!(
        extract_cpu_utilization("cpu0 12 0 5"),
        Err(ParseError::MissingField)
    ));
}

#[test]
fn cpu_lines_keep_cores_and_drop_the_aggregate() {
    let lines = vec![
        String::from("cpu  100 0 50 50 0 0"),
        String::from("cpu0 60 0 20 20 0 0"),
        String::from("cpu1 40 0 30 30 0 0"),
        String::from("intr 12345"),
    ];
    let meas = cpu_usage_from_lines(&lines).unwrap();
    let cores = meas.cpu_time();
    assert_eq!(cores.len(), 2);
    assert_eq!(cores[0].cpu_id(), "cpu0");
    assert_eq!(cores[0].user_time(), 60);
    assert_eq!(cores[1].cpu_id(), "cpu1");
    assert_eq!(cores[1].idle_time(), 30);
}

#[test]
fn mem_line_with_bad_number_is_not_numeric() {
    assert_eq!(
        extract_mem_consumption("MemTotal: abc kB"),
        Err(ParseError::NotNumeric)
    );
}

#[test]
fn mem_line_with_one_field_is_missing_field() {
    assert_eq!(
        extract_mem_consumption("MemTotal:"),
        Err(ParseError::MissingField)
    );
}

#[test]
fn memory_lines_fill_all_three_totals() {
    let lines = vec![
        String::from("MemTotal:       16384 kB"),
        String::from("MemFree:         2048 kB"),
        String::from("MemAvailable:    8192 kB"),
        String::from("Buffers:          512 kB"),
    ];
    let m = memory_consumption_from_lines(&lines).unwrap();
    assert_eq!(m.mem_total(), 16384);
    assert_eq!(m.mem_free(), 2048);
    assert_eq!(m.mem_avail(), 8192);
}

#[test]
fn memory_later_line_with_same_key_wins() {
    let lines = vec![
        String::from("MemTotal: 1 kB"),
        String::from("MemTotal: 2 kB"),
    ];
    let m = memory_consumption_from_lines(&lines).unwrap();
    assert_eq!(m.mem_total(), 2);
}

#[test]
fn socket_count_too_large_for_usize_is_overflow() {
    assert_eq!(
        extract_socket_stat("TCP: inuse 99999999999999999999999 x"),
        Err(ParseError::Overflow)
    );
}

#[test]
fn socket_lines_fill_each_protocol() {
    let lines = vec![
        String::from("sockets: used 100"),
        String::from("TCP: inuse 8 orphan 0 tw 0 alloc 8 mem 4"),
        String::from("UDP: inuse 3 mem 2"),
        String::from("UDPLITE: inuse 1"),
    ];
    let s = socket_stats_from_lines(&lines).unwrap();
    assert_eq!(s.tcp_inuse(), 8);
    assert_eq!(s.udp_inuse(), 3);
    assert_eq!(s.udp_lite_inuse(), 1);
}

#[test]
fn disk_lines_keep_sd_devices_only() {
    let lines = vec![
        String::from("8   0 sda   157698 0 123456 0 789012 0 0 0 0 0 0 0 0 0 0 0 0 0 0"),
        String::from("8   1 sda1  1000 0 2000 0 3000 0 0 4 0 0 0 0 0 0 0 0 0 0 0"),
        String::from("7   0 loop0 10 0 20 0 30 0 0 0 0 0 0 0 0 0 0 0 0 0 0"),
    ];
    let d = disk_utility_from_lines(&lines).unwrap();
    let devs = d.sd_utilization();
    assert_eq!(devs.len(), 2);
    assert_eq!(devs[0].name(), "sda");
    assert_eq!(devs[0].version(), "8.0");
    assert_eq!(devs[1].name(), "sda1");
    assert_eq!(devs[1].io_in_progress(), 4);
}

#[test]
fn disk_line_with_too_few_fields_is_missing_field() {
    assert!(matches!(
        extract_disk_statistics(" sda 1 2"),
        Err(ParseError::MissingField)
    ));
}

#[test]
fn gpu_value_is_taken_between_separators() {
    let line = "    Product Name                          : NVIDIA GeForce RTX 3070";
    assert_eq!(extract_nvidia_gpu_data(line), "NVIDIA GeForce RTX 3070");
}

#[test]
fn gpu_numeric_value_stops_at_the_unit() {
    assert_eq!(
        extract_nvidia_gpu_data_numeric_value("    GPU Current Temp : 36 C"),
        Ok(36)
    );
    assert_eq!(
        extract_nvidia_gpu_data_milli_value("    Power Draw : 25.31 W"),
        Ok(25310)
    );
    assert_eq!(
        extract_nvidia_gpu_data_numeric_value("    GPU Current Temp : hot C"),
        Err(ParseError::NotNumeric)
    );
}

#[test]
fn gpu_lines_fill_the_record() {
    let lines = vec![
        String::from("    Product Name                          : NVIDIA GeForce RTX 3070"),
        String::from("    Product Architecture                  : Ampere"),
        String::from("        GPU Current Temp                  : 36 C"),
        String::from("        GPU Max Operating Temp            : 93 C"),
        String::from("        Power Draw                        : 25.31 W"),
        String::from("        Current Power Limit               : 240.00 W"),
        String::from("        Memory                            : 3 %"),
    ];
    let g = nvidia_gpu_from_lines(&lines).unwrap();
    assert_eq!(g.gpu_name(), "NVIDIA GeForce RTX 3070");
    assert_eq!(g.gpu_architecture(), "Ampere");
    assert_eq!(g.gpu_temp(), 36);
    assert_eq!(g.gpu_max_temp(), 93);
    assert_eq!(g.power_usage(), 25310);
    assert_eq!(g.power_capacity(), 240000);
    assert_eq!(g.gpu_utilization(), 3000);
}

#[test]
fn gpu_report_without_gpu_lines_stays_default() {
    let lines = vec![String::from("no devices were found")];
    let g = nvidia_gpu_from_lines(&lines).unwrap();
    assert_eq!(g.gpu_name(), "");
    assert_eq!(g.gpu_temp(), 0);
}
