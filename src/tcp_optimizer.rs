use vstd::prelude::*;

verus! {

/// Tuning the kernel's TCP parameters.
pub const TCP_GUIDE: &'static str = "\
=== TCP 调优 ===\n\
\n\
优化 TCP 参数可以显著提升网络性能\n\
\n\
1. 查看当前 TCP 设置\n\
\x20  ```\n\
\x20  # 查看所有网络参数\n\
\x20  sysctl -a | grep net\n\
\n\
\x20  # 查看 TCP 相关参数\n\
\x20  sysctl -a | grep tcp\n\
\n\
\x20  # 查看当前拥塞控制算法\n\
\x20  sysctl net.ipv4.tcp_congestion_control\n\
\x20  sysctl net.ipv4.tcp_available_congestion_control\n\
\x20  ```\n\
\n\
2. 基础 TCP 优化参数\n\
\x20  编辑 /etc/sysctl.conf 添加:\n\
\x20  ```\n\
\x20  # TCP 缓冲区大小\n\
\x20  net.core.rmem_default = 262144\n\
\x20  net.core.rmem_max = 134217728\n\
\x20  net.core.wmem_default = 262144\n\
\x20  net.core.wmem_max = 134217728\n\
\x20  net.ipv4.tcp_rmem = 4096 87380 134217728\n\
\x20  net.ipv4.tcp_wmem = 4096 65536 134217728\n\
\n\
\x20  # TCP 连接数\n\
\x20  net.core.somaxconn = 32768\n\
\x20  net.ipv4.tcp_max_syn_backlog = 8192\n\
\n\
\x20  # TCP KeepAlive\n\
\x20  net.ipv4.tcp_keepalive_time = 60\n\
\x20  net.ipv4.tcp_keepalive_intvl = 10\n\
\x20  net.ipv4.tcp_keepalive_probes = 6\n\
\x20  ```\n\
\n\
3. 启用 BBR 拥塞控制\n\
\x20  ```\n\
\x20  # 检查内核版本 (需要 4.9+)\n\
\x20  uname -r\n\
\n\
\x20  # 加载 BBR 模块\n\
\x20  modprobe tcp_bbr\n\
\x20  echo \"tcp_bbr\" >> /etc/modules-load.d/modules.conf\n\
\n\
\x20  # 启用 BBR\n\
\x20  echo \"net.core.default_qdisc = fq\" >> /etc/sysctl.conf\n\
\x20  echo \"net.ipv4.tcp_congestion_control = bbr\" >> /etc/sysctl.conf\n\
\n\
\x20  # 应用设置\n\
\x20  sysctl -p\n\
\x20  ```\n\
\n\
4. 高性能服务器优化\n\
\x20  ```\n\
\x20  # 文件描述符限制\n\
\x20  echo \"* soft nofile 1000000\" >> /etc/security/limits.conf\n\
\x20  echo \"* hard nofile 1000000\" >> /etc/security/limits.conf\n\
\n\
\x20  # 更多 TCP 优化\n\
\x20  net.ipv4.tcp_fastopen = 3\n\
\x20  net.ipv4.tcp_tw_reuse = 1\n\
\x20  net.ipv4.tcp_fin_timeout = 30\n\
\x20  net.ipv4.tcp_max_tw_buckets = 5000\n\
\x20  net.ipv4.tcp_syncookies = 1\n\
\x20  net.ipv4.tcp_synack_retries = 2\n\
\x20  net.ipv4.ip_local_port_range = 10000 65535\n\
\x20  ```\n\
\n\
5. 验证优化效果\n\
\x20  ```\n\
\x20  # 查看 BBR 是否启用\n\
\x20  lsmod | grep bbr\n\
\x20  sysctl net.ipv4.tcp_congestion_control\n\
\n\
\x20  # 网络性能测试\n\
\x20  iperf3 -s  # 服务端\n\
\x20  iperf3 -c server_ip -t 30  # 客户端\n\
\n\
\x20  # 查看 TCP 统计\n\
\x20  ss -s\n\
\x20  netstat -s | grep -i tcp\n\
\x20  ```\n\
\n\
6. 注意事项\n\
\x20  - BBR 需要内核 4.9 或更高版本\n\
\x20  - 修改前建议备份原始配置\n\
\x20  - 某些参数可能需要重启生效\n\
\x20  - 根据实际网络环境调整参数\n\
\n\
提示: 应用配置后使用 'sysctl -p' 使其生效。\n\
";

/// The guide page: tuning the kernel's TCP parameters.
pub fn get_info() -> (r: String)
    ensures
        r@ == TCP_GUIDE@,
{
    TCP_GUIDE.to_owned()
}

} // verus!
