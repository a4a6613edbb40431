use vstd::prelude::*;

verus! {

/// How to open a firewall port with iptables, firewalld or ufw, and check that it is open.
pub const OPEN_PORT_GUIDE: &'static str = "\
=== 开放端口 ===\n\
\n\
不同系统的端口开放方法：\n\
\n\
1. 使用 iptables (传统方法)\n\
\x20  ```\n\
\x20  # 开放单个端口\n\
\x20  iptables -A INPUT -p tcp --dport 8080 -j ACCEPT\n\
\x20  iptables -A INPUT -p udp --dport 8080 -j ACCEPT\n\
\n\
\x20  # 开放端口范围\n\
\x20  iptables -A INPUT -p tcp --dport 8000:9000 -j ACCEPT\n\
\n\
\x20  # 限制来源IP\n\
\x20  iptables -A INPUT -p tcp -s 192.168.1.100 --dport 22 -j ACCEPT\n\
\n\
\x20  # 保存规则\n\
\x20  iptables-save > /etc/iptables/rules.v4\n\
\x20  ```\n\
\n\
2. 使用 firewalld (CentOS/RHEL 7+)\n\
\x20  ```\n\
\x20  # 开放端口\n\
\x20  firewall-cmd --zone=public --add-port=8080/tcp --permanent\n\
\x20  firewall-cmd --zone=public --add-port=8080/udp --permanent\n\
\n\
\x20  # 开放端口范围\n\
\x20  firewall-cmd --zone=public --add-port=8000-9000/tcp --permanent\n\
\n\
\x20  # 重载配置\n\
\x20  firewall-cmd --reload\n\
\n\
\x20  # 查看已开放端口\n\
\x20  firewall-cmd --list-ports\n\
\x20  ```\n\
\n\
3. 使用 ufw (Ubuntu/Debian)\n\
\x20  ```\n\
\x20  # 开放端口\n\
\x20  ufw allow 8080/tcp\n\
\x20  ufw allow 8080/udp\n\
\n\
\x20  # 开放端口范围\n\
\x20  ufw allow 8000:9000/tcp\n\
\n\
\x20  # 限制来源IP\n\
\x20  ufw allow from 192.168.1.100 to any port 22\n\
\n\
\x20  # 查看状态\n\
\x20  ufw status\n\
\x20  ```\n\
\n\
4. 检查端口状态\n\
\x20  ```\n\
\x20  # 查看监听端口\n\
\x20  netstat -tlnp\n\
\x20  ss -tlnp\n\
\n\
\x20  # 测试端口连通性\n\
\x20  telnet localhost 8080\n\
\x20  nc -zv localhost 8080\n\
\x20  ```\n\
\n\
提示: 开放端口前请确认服务已正确配置，避免安全风险。\n\
";

/// How to close a firewall port with the same tools, and stop the service behind it.
pub const CLOSE_PORT_GUIDE: &'static str = "\
=== 关闭端口 ===\n\
\n\
不同系统的端口关闭方法：\n\
\n\
1. 使用 iptables\n\
\x20  ```\n\
\x20  # 删除允许规则\n\
\x20  iptables -D INPUT -p tcp --dport 8080 -j ACCEPT\n\
\x20  iptables -D INPUT -p udp --dport 8080 -j ACCEPT\n\
\n\
\x20  # 添加拒绝规则\n\
\x20  iptables -A INPUT -p tcp --dport 8080 -j DROP\n\
\n\
\x20  # 查看现有规则\n\
\x20  iptables -L -n --line-numbers\n\
\n\
\x20  # 根据行号删除规则\n\
\x20  iptables -D INPUT 5\n\
\n\
\x20  # 保存规则\n\
\x20  iptables-save > /etc/iptables/rules.v4\n\
\x20  ```\n\
\n\
2. 使用 firewalld\n\
\x20  ```\n\
\x20  # 关闭端口\n\
\x20  firewall-cmd --zone=public --remove-port=8080/tcp --permanent\n\
\x20  firewall-cmd --zone=public --remove-port=8080/udp --permanent\n\
\n\
\x20  # 关闭端口范围\n\
\x20  firewall-cmd --zone=public --remove-port=8000-9000/tcp --permanent\n\
\n\
\x20  # 重载配置\n\
\x20  firewall-cmd --reload\n\
\x20  ```\n\
\n\
3. 使用 ufw\n\
\x20  ```\n\
\x20  # 删除允许规则\n\
\x20  ufw delete allow 8080/tcp\n\
\x20  ufw delete allow 8080/udp\n\
\n\
\x20  # 添加拒绝规则\n\
\x20  ufw deny 8080/tcp\n\
\n\
\x20  # 根据编号删除规则\n\
\x20  ufw status numbered\n\
\x20  ufw delete 5\n\
\x20  ```\n\
\n\
4. 停止监听服务\n\
\x20  ```\n\
\x20  # 查找占用端口的进程\n\
\x20  lsof -i :8080\n\
\x20  fuser 8080/tcp\n\
\n\
\x20  # 停止服务\n\
\x20  systemctl stop service_name\n\
\n\
\x20  # 终止进程\n\
\x20  kill -9 PID\n\
\x20  ```\n\
\n\
提示: 关闭端口前请确认不会影响正常服务。\n\
";

pub fn get_open_port_info() -> (r: String)
    ensures
        r@ == OPEN_PORT_GUIDE@,
{
    OPEN_PORT_GUIDE.to_owned()
}

pub fn get_close_port_info() -> (r: String)
    ensures
        r@ == CLOSE_PORT_GUIDE@,
{
    CLOSE_PORT_GUIDE.to_owned()
}

} // verus!
