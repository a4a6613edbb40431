use vstd::prelude::*;

verus! {

/// Deploying and running K3s, the lightweight Kubernetes distribution.
pub const K3S_GUIDE: &'static str = "\
=== K3s 轻量级 Kubernetes ===\n\
\n\
K3s 是一个轻量级的 Kubernetes 发行版，适合边缘计算、IoT、CI/CD\n\
\n\
1. 快速安装\n\
\x20  ```\n\
\x20  # 安装最新版本\n\
\x20  curl -sfL https://get.k3s.io | sh -\n\
\n\
\x20  # 安装指定版本\n\
\x20  curl -sfL https://get.k3s.io | INSTALL_K3S_VERSION=v1.27.4+k3s1 sh -\n\
\n\
\x20  # 安装时禁用 traefik\n\
\x20  curl -sfL https://get.k3s.io | INSTALL_K3S_EXEC=\"--disable traefik\" sh -\n\
\x20  ```\n\
\n\
2. 基本配置\n\
\x20  ```\n\
\x20  # 查看配置\n\
\x20  cat /etc/rancher/k3s/k3s.yaml\n\
\n\
\x20  # 配置 kubectl\n\
\x20  mkdir ~/.kube\n\
\x20  cp /etc/rancher/k3s/k3s.yaml ~/.kube/config\n\
\x20  chmod 600 ~/.kube/config\n\
\x20  ```\n\
\n\
3. 常用命令\n\
\x20  ```\n\
\x20  # 查看节点\n\
\x20  kubectl get nodes\n\
\n\
\x20  # 查看所有 pods\n\
\x20  kubectl get pods --all-namespaces\n\
\n\
\x20  # 查看服务\n\
\x20  kubectl get services --all-namespaces\n\
\n\
\x20  # 查看 k3s 服务状态\n\
\x20  systemctl status k3s\n\
\n\
\x20  # 查看日志\n\
\x20  journalctl -u k3s -f\n\
\x20  ```\n\
\n\
4. 集群管理\n\
\x20  ```\n\
\x20  # 获取节点 token\n\
\x20  cat /var/lib/rancher/k3s/server/node-token\n\
\n\
\x20  # 添加 worker 节点\n\
\x20  curl -sfL https://get.k3s.io | K3S_URL=https://master-ip:6443 K3S_TOKEN=xxx sh -\n\
\n\
\x20  # 删除节点\n\
\x20  kubectl delete node node-name\n\
\x20  ```\n\
\n\
5. 部署应用示例\n\
\x20  ```\n\
\x20  # 部署 nginx\n\
\x20  kubectl create deployment nginx --image=nginx\n\
\x20  kubectl expose deployment nginx --port=80 --type=NodePort\n\
\n\
\x20  # 查看部署\n\
\x20  kubectl get deployments\n\
\x20  kubectl get svc\n\
\x20  ```\n\
\n\
6. 卸载 K3s\n\
\x20  ```\n\
\x20  # 卸载 server\n\
\x20  /usr/local/bin/k3s-uninstall.sh\n\
\n\
\x20  # 卸载 agent\n\
\x20  /usr/local/bin/k3s-agent-uninstall.sh\n\
\x20  ```\n\
\n\
提示: K3s 默认包含了 containerd、Flannel、CoreDNS、Traefik 等组件。\n\
";

/// The guide page: deploying and running K3s, the lightweight Kubernetes distribution.
pub fn get_info() -> (r: String)
    ensures
        r@ == K3S_GUIDE@,
{
    K3S_GUIDE.to_owned()
}

} // verus!
