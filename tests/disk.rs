use vpsdash::disk_test::{
    calculate_total_performance, calculate_totals, format_speed_with_unit, parse_dd_output,
    parse_fio_output, parse_fio_output_to_result, parse_iops_value, parse_speed_value,
    DiskTestResult,
};
use vpsdash::network_test::{calculate_jitter, get_network_providers, network_plan};
use vpsdash::text::parse_decimal_micros;

const FIO: &str = "4k_mixed: (groupid=0, jobs=4): err= 0: pid=1234\r\n  read: IOPS=25.3k, BW=98.8MiB/s (104MB/s)(988MiB/10001msec)\r\n  write: IOPS=25.2k, BW=98.5MiB/s (103MB/s)(985MiB/10001msec); 0 zone resets\r\n";

fn row(name: &str, rs: &str, ws: &str, ri: &str, wi: &str) -> DiskTestResult {
    DiskTestResult {
        test_name: name.to_string(),
        read_speed: rs.to_string(),
        write_speed: ws.to_string(),
        read_iops: ri.to_string(),
        write_iops: wi.to_string(),
        total_speed: "N/A".to_string(),
        total_iops: "N/A".to_string(),
    }
}

#[test]
fn fio_report_to_row() {
    let r = parse_fio_output_to_result(FIO, "4K 随机读写测试").unwrap();
    assert_eq!(r.test_name, "4K 随机读写测试");
    assert_eq!(r.read_speed, "98.8MiB/s");
    assert_eq!(r.read_iops, "25.3k");
    assert_eq!(r.write_speed, "98.5MiB/s");
    assert_eq!(r.write_iops, "25.2k");
    assert_eq!(r.total_speed, "98.8MiB/s + 98.5MiB/s");
    assert_eq!(r.total_iops, "25.3k + 25.2k");
}

#[test]
fn fio_report_without_figures() {
    let r = parse_fio_output_to_result("fio: no jobs\n", "x").unwrap();
    assert_eq!(
        (r.read_speed.as_str(), r.write_speed.as_str(), r.total_speed.as_str()),
        ("N/A", "N/A", "N/A")
    );
    assert_eq!(r.total_iops, "N/A");
}

#[test]
fn fio_summary_text() {
    assert_eq!(
        parse_fio_output(FIO, "4k").unwrap(),
        "Block Size: 4k \nRead:  98.8MiB/s (25.3k IOPS)\nWrite: 98.5MiB/s (25.2k IOPS)\n"
    );
}

#[test]
fn totals_need_both_bandwidths() {
    assert_eq!(
        calculate_totals("1 MB/s", "2 MB/s", "10", "20"),
        ("1 MB/s + 2 MB/s".to_string(), "10 + 20".to_string())
    );
    assert_eq!(
        calculate_totals("N/A", "2 MB/s", "10", "20"),
        ("N/A".to_string(), "N/A".to_string())
    );
}

#[test]
fn dd_rate_after_last_comma() {
    let out = "50+0 records in\n50+0 records out\n52428800 bytes (52 MB, 50 MiB) copied, 0.25 s, 210 MB/s\n";
    assert_eq!(parse_dd_output(out).unwrap(), "210 MB/s");
    let gb = "1073741824 bytes (1.1 GB, 1.0 GiB) copied, 0.5 s, 2.1 GB/s";
    assert_eq!(parse_dd_output(gb).unwrap(), "2.1 GB/s");
}

#[test]
fn dd_unparsed_and_blank_output() {
    assert_eq!(parse_dd_output("  dd: failed  \n").unwrap(), "解析失败: dd: failed");
    assert_eq!(parse_dd_output(" \n\t"), None);
    assert_eq!(parse_dd_output(""), None);
}

#[test]
fn speed_and_iops_values() {
    assert_eq!(parse_speed_value(&"12.5 MB/s".to_string()), 12_500_000);
    assert_eq!(parse_speed_value(&"2 GB/s".to_string()), 2_048_000_000);
    assert_eq!(parse_speed_value(&"N/A".to_string()), 0);
    assert_eq!(parse_speed_value(&"fast".to_string()), 0);
    assert_eq!(parse_iops_value(&"30.8k".to_string()), 30_800_000_000);
    assert_eq!(parse_iops_value(&"1234".to_string()), 1_234_000_000);
    assert_eq!(parse_iops_value(&"错误".to_string()), 0);
    assert_eq!(parse_decimal_micros(".25"), 250_000);
    assert_eq!(parse_decimal_micros("7."), 7_000_000);
    assert_eq!(parse_decimal_micros("1.23456789"), 1_234_567);
    assert_eq!(parse_decimal_micros("1.2.3"), 0);
    assert_eq!(parse_decimal_micros("."), 0);
    assert_eq!(parse_decimal_micros("1234567890123"), 0);
}

#[test]
fn speed_text_switches_to_gb() {
    assert_eq!(format_speed_with_unit(1_023_000_000), "1023.00 MB/s");
    assert_eq!(format_speed_with_unit(1_024_000_000), "1.00 GB/s");
    assert_eq!(format_speed_with_unit(5_000), "0.01 MB/s");
    assert_eq!(format_speed_with_unit(0), "0.00 MB/s");
}

#[test]
fn block_totals() {
    let rows = vec![
        row("4K 读取", "120.50 MB/s", "N/A", "30.8k", "N/A"),
        row("64K 读取", "300.00 MB/s", "N/A", "4.8k", "N/A"),
        row("4K 写入", "N/A", "1.50 GB/s", "N/A", "12.0k"),
    ];
    let totals = calculate_total_performance(&rows);
    assert_eq!(totals.len(), 1);
    let t = &totals[0];
    assert_eq!(t.test_name, "4K 总计");
    assert_eq!(t.read_speed, "120.50 MB/s");
    assert_eq!(t.write_speed, "1.50 GB/s");
    assert_eq!(t.total_speed, "1.62 GB/s");
    assert_eq!(t.total_iops, "42.8k");
    assert!(calculate_total_performance(&Vec::new()).is_empty());
}

#[test]
fn providers() {
    let p = get_network_providers();
    assert_eq!(p.len(), 3);
    assert_eq!(p[0].name, "中国移动");
    assert_eq!(p[1].color, "#E60012");
    assert_eq!(p[2].test_urls[1], "http://speedtest2.online.sh.cn:8080/speedtest/upload.php");
}

#[test]
fn jitter_is_mean_step() {
    assert_eq!(calculate_jitter(&vec![]), 0);
    assert_eq!(calculate_jitter(&vec![300]), 0);
    assert_eq!(calculate_jitter(&vec![300, 400, 350, 450]), 83);
    assert_eq!(calculate_jitter(&vec![u64::MAX, 0, u64::MAX]), u64::MAX);
}

#[test]
fn network_plan_follows_providers() {
    let plan = network_plan();
    let names: Vec<String> = get_network_providers().into_iter().map(|p| p.name).collect();
    assert_eq!(plan.phase_names, names);
    assert_eq!(plan.composite_name, "平均");
}
