use vstd::prelude::*;

verus! {

/// Installing sing-box with its one-line script.
pub const SING_BOX_GUIDE: &'static str = "\
=== sing-box 一键脚本 ===\n\
\n\
sing-box 是一个通用的代理平台\n\
\n\
1. 官方安装脚本\n\
\x20  ```\n\
\x20  bash <(curl -fsSL https://sing-box.app/install.sh)\n\
\x20  ```\n\
\n\
2. 手动安装\n\
\x20  ```\n\
\x20  # 下载最新版本\n\
\x20  curl -Lo sing-box.tar.gz https://github.com/SagerNet/sing-box/releases/latest/download/sing-box-linux-amd64.tar.gz\n\
\x20  tar -xzf sing-box.tar.gz\n\
\x20  cp sing-box-*/sing-box /usr/local/bin/\n\
\x20  chmod +x /usr/local/bin/sing-box\n\
\x20  ```\n\
\n\
3. 配置文件位置\n\
\x20  ```\n\
\x20  # 默认配置文件路径\n\
\x20  /etc/sing-box/config.json\n\
\n\
\x20  # 创建配置目录\n\
\x20  mkdir -p /etc/sing-box/\n\
\x20  ```\n\
\n\
4. 系统服务管理\n\
\x20  ```\n\
\x20  # 创建服务文件\n\
\x20  cat > /etc/systemd/system/sing-box.service << EOF\n\
[Unit]\n\
Description=sing-box service\n\
After=network.target\n\
\n\
[Service]\n\
Type=simple\n\
ExecStart=/usr/local/bin/sing-box run -c /etc/sing-box/config.json\n\
Restart=on-failure\n\
\n\
[Install]\n\
WantedBy=multi-user.target\n\
EOF\n\
\x20  ```\n\
\n\
5. 常用命令\n\
\x20  ```\n\
\x20  # 启动服务\n\
\x20  systemctl start sing-box\n\
\n\
\x20  # 停止服务\n\
\x20  systemctl stop sing-box\n\
\n\
\x20  # 重启服务\n\
\x20  systemctl restart sing-box\n\
\n\
\x20  # 查看状态\n\
\x20  systemctl status sing-box\n\
\n\
\x20  # 开机自启\n\
\x20  systemctl enable sing-box\n\
\n\
\x20  # 查看日志\n\
\x20  journalctl -u sing-box -f\n\
\x20  ```\n\
\n\
提示: 配置文件需要根据实际需求编写，可参考官方文档。\n\
";

/// The guide page: installing sing-box with its one-line script.
pub fn get_info() -> (r: String)
    ensures
        r@ == SING_BOX_GUIDE@,
{
    SING_BOX_GUIDE.to_owned()
}

} // verus!
