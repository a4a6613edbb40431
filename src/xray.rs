use vstd::prelude::*;

verus! {

/// Installing xray with its one-line script.
pub const XRAY_GUIDE: &'static str = "\
=== xray 一键脚本 ===\n\
\n\
Xray 是 V2Ray 的超集，具有更好的性能\n\
\n\
1. 官方安装脚本\n\
\x20  ```\n\
\x20  # 安装或更新 Xray\n\
\x20  bash -c \"$(curl -L https://github.com/XTLS/Xray-install/raw/main/install-release.sh)\" @ install\n\
\n\
\x20  # 安装指定版本\n\
\x20  bash -c \"$(curl -L https://github.com/XTLS/Xray-install/raw/main/install-release.sh)\" @ install --version 1.8.0\n\
\n\
\x20  # 移除 Xray\n\
\x20  bash -c \"$(curl -L https://github.com/XTLS/Xray-install/raw/main/install-release.sh)\" @ remove\n\
\x20  ```\n\
\n\
2. 配置文件管理\n\
\x20  ```\n\
\x20  # 默认配置文件路径\n\
\x20  /usr/local/etc/xray/config.json\n\
\n\
\x20  # 编辑配置文件\n\
\x20  nano /usr/local/etc/xray/config.json\n\
\n\
\x20  # 验证配置文件\n\
\x20  xray run -test -config /usr/local/etc/xray/config.json\n\
\x20  ```\n\
\n\
3. 服务管理命令\n\
\x20  ```\n\
\x20  # 启动 Xray\n\
\x20  systemctl start xray\n\
\n\
\x20  # 停止 Xray\n\
\x20  systemctl stop xray\n\
\n\
\x20  # 重启 Xray\n\
\x20  systemctl restart xray\n\
\n\
\x20  # 查看运行状态\n\
\x20  systemctl status xray\n\
\n\
\x20  # 设置开机自启\n\
\x20  systemctl enable xray\n\
\n\
\x20  # 查看日志\n\
\x20  journalctl -u xray -f\n\
\x20  ```\n\
\n\
4. 基础配置示例\n\
\x20  ```json\n\
\x20  {\n\
\x20    \"log\": {\n\
\x20      \"loglevel\": \"warning\"\n\
\x20    },\n\
\x20    \"inbounds\": [...],\n\
\x20    \"outbounds\": [...]\n\
\x20  }\n\
\x20  ```\n\
\n\
5. 相关工具\n\
\x20  ```\n\
\x20  # 生成 UUID\n\
\x20  xray uuid\n\
\n\
\x20  # 生成配置文件\n\
\x20  xray help config\n\
\x20  ```\n\
\n\
提示: 请根据实际需求配置，注意防火墙规则。\n\
";

/// The guide page: installing xray with its one-line script.
pub fn get_info() -> (r: String)
    ensures
        r@ == XRAY_GUIDE@,
{
    XRAY_GUIDE.to_owned()
}

} // verus!
