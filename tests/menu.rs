use vpsdash::content::get_content;
use vpsdash::disk_test::calculate_optimal_file_size;
use vpsdash::menu::{Menu, MenuItem};
use vpsdash::text::{format_duration, format_uptime, to_decimal};
use vpsdash::types::ScrollPosition;
use vpsdash::{k3s, k8s, port_manager, sing_box, tcp_optimizer, xray};

#[test]
fn menu_moves_within_bounds() {
    let mut m = Menu::new();
    assert_eq!(m.selected_item(), MenuItem::SystemInfo);
    m.previous();
    assert_eq!(m.selected_index(), 0);
    for _ in 0..20 {
        m.next();
    }
    assert_eq!(m.selected_index(), 9);
    assert_eq!(m.selected_item(), MenuItem::TcpOptimization);
    m.previous();
    assert_eq!(m.selected_item(), MenuItem::K8s);
    assert_eq!(m.items().len(), 10);
}

#[test]
fn menu_digit_keys() {
    let mut m = Menu::new();
    assert!(m.select_by_number('3'));
    assert_eq!(m.selected_item(), MenuItem::CpuTest);
    assert!(m.select_by_number('0'));
    assert_eq!(m.selected_item(), MenuItem::TcpOptimization);
    assert!(!m.select_by_number('x'));
    assert_eq!(m.selected_index(), 9);
}

#[test]
fn menu_labels() {
    assert_eq!(MenuItem::all().len(), 10);
    assert_eq!(MenuItem::CpuTest.as_str(), "3. CPU测试");
    assert_eq!(MenuItem::TcpOptimization.as_str(), "0. tcp调优");
    assert_eq!(MenuItem::DiskTest.description(), "测试硬盘读写性能");
}

#[test]
fn scrolling_stops_at_the_ends() {
    let mut s = ScrollPosition::new();
    s.max = 50;
    s.viewport_height = 20;
    assert!(s.can_scroll_down());
    assert!(!s.can_scroll_up());
    s.scroll_down(25);
    assert_eq!(s.current, 25);
    s.scroll_down(u16::MAX);
    assert_eq!(s.current, 30);
    assert!(!s.can_scroll_down());
    s.scroll_up(7);
    assert_eq!(s.current, 23);
    s.scroll_up(100);
    assert_eq!(s.current, 0);
    s.scroll_down(3);
    s.reset();
    assert_eq!(s.current, 0);
}

#[test]
fn short_content_does_not_scroll() {
    let mut s = ScrollPosition::new();
    s.max = 10;
    s.viewport_height = 20;
    s.scroll_down(5);
    assert_eq!(s.current, 0);
    assert!(!s.can_scroll_down());
}

#[test]
fn durations_and_numbers() {
    assert_eq!(format_duration(0), "0s");
    assert_eq!(format_duration(59), "59s");
    assert_eq!(format_duration(60), "1:00");
    assert_eq!(format_duration(125), "2:05");
    assert_eq!(format_duration(3_671), "61:11");
    assert_eq!(to_decimal(0), "0");
    assert_eq!(to_decimal(u64::MAX), u64::MAX.to_string());
}

#[test]
fn guide_pages() {
    assert!(k3s::get_info().starts_with("=== K3s 轻量级 Kubernetes ===\n\n"));
    assert!(port_manager::get_open_port_info().starts_with("=== 开放端口 ===\n\n"));
    assert!(port_manager::get_close_port_info().starts_with("=== 关闭端口 ===\n\n"));
    let gfw = get_content(MenuItem::CrossGFW).unwrap();
    assert_eq!(gfw, format!("{}\n{}", sing_box::get_info(), xray::get_info()));
    assert_eq!(get_content(MenuItem::K3s), Some(k3s::get_info()));
    assert_eq!(get_content(MenuItem::CpuTest), None);
    assert_eq!(get_content(MenuItem::SystemInfo), None);
}

#[test]
fn guide_page_lengths() {
    assert_eq!(k3s::get_info().chars().count(), 1362);
    assert_eq!(k8s::get_info().chars().count(), 2096);
    assert_eq!(sing_box::get_info().chars().count(), 1076);
    assert_eq!(xray::get_info().chars().count(), 1117);
    assert_eq!(tcp_optimizer::get_info().chars().count(), 1843);
    assert_eq!(port_manager::get_open_port_info().chars().count(), 1099);
    assert_eq!(port_manager::get_close_port_info().chars().count(), 1009);
}

#[test]
fn scratch_file_sizes() {
    assert_eq!(calculate_optimal_file_size(4096), 50 * 1024 * 1024);
    assert_eq!(calculate_optimal_file_size(1048576), 500 * 1024 * 1024);
    assert_eq!(calculate_optimal_file_size(12345), 50 * 1024 * 1024);
}

#[test]
fn uptime_text() {
    assert_eq!(format_uptime(59), "0m");
    assert_eq!(format_uptime(3_600 + 120), "1h 2m");
    assert_eq!(format_uptime(2 * 86_400 + 30), "2d 0h 0m");
}
