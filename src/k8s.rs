use vstd::prelude::*;

verus! {

/// Deploying and running a full Kubernetes cluster.
pub const K8S_GUIDE: &'static str = "\
=== Kubernetes (K8s) ===\n\
\n\
Kubernetes 是容器编排的行业标准\n\
\n\
1. 前置要求\n\
\x20  ```\n\
\x20  # 关闭 swap\n\
\x20  swapoff -a\n\
\x20  sed -i '/ swap / s/^/#/' /etc/fstab\n\
\n\
\x20  # 配置内核参数\n\
\x20  cat <<EOF | tee /etc/modules-load.d/k8s.conf\n\
br_netfilter\n\
EOF\n\
\n\
\x20  cat <<EOF | tee /etc/sysctl.d/k8s.conf\n\
net.bridge.bridge-nf-call-ip6tables = 1\n\
net.bridge.bridge-nf-call-iptables = 1\n\
EOF\n\
\x20  sysctl --system\n\
\x20  ```\n\
\n\
2. 安装容器运行时 (containerd)\n\
\x20  ```\n\
\x20  # 安装 containerd\n\
\x20  apt-get update\n\
\x20  apt-get install -y containerd\n\
\n\
\x20  # 配置 containerd\n\
\x20  mkdir -p /etc/containerd\n\
\x20  containerd config default | tee /etc/containerd/config.toml\n\
\x20  systemctl restart containerd\n\
\x20  ```\n\
\n\
3. 安装 kubeadm, kubelet, kubectl\n\
\x20  ```\n\
\x20  # 添加 Kubernetes APT 仓库\n\
\x20  curl -fsSL https://packages.cloud.google.com/apt/doc/apt-key.gpg | apt-key add -\n\
\x20  echo \"deb https://apt.kubernetes.io/ kubernetes-xenial main\" > /etc/apt/sources.list.d/kubernetes.list\n\
\n\
\x20  # 安装组件\n\
\x20  apt-get update\n\
\x20  apt-get install -y kubelet kubeadm kubectl\n\
\x20  apt-mark hold kubelet kubeadm kubectl\n\
\x20  ```\n\
\n\
4. 初始化 Master 节点\n\
\x20  ```\n\
\x20  # 初始化集群\n\
\x20  kubeadm init --pod-network-cidr=10.244.0.0/16\n\
\n\
\x20  # 配置 kubectl\n\
\x20  mkdir -p $HOME/.kube\n\
\x20  cp -i /etc/kubernetes/admin.conf $HOME/.kube/config\n\
\x20  chown $(id -u):$(id -g) $HOME/.kube/config\n\
\x20  ```\n\
\n\
5. 安装网络插件\n\
\x20  ```\n\
\x20  # 安装 Flannel\n\
\x20  kubectl apply -f https://raw.githubusercontent.com/flannel-io/flannel/master/Documentation/kube-flannel.yml\n\
\n\
\x20  # 或安装 Calico\n\
\x20  kubectl create -f https://raw.githubusercontent.com/projectcalico/calico/v3.26.0/manifests/tigera-operator.yaml\n\
\x20  kubectl create -f https://raw.githubusercontent.com/projectcalico/calico/v3.26.0/manifests/custom-resources.yaml\n\
\x20  ```\n\
\n\
6. 添加 Worker 节点\n\
\x20  ```\n\
\x20  # 在 Master 上生成加入命令\n\
\x20  kubeadm token create --print-join-command\n\
\n\
\x20  # 在 Worker 节点上执行加入命令\n\
\x20  kubeadm join master-ip:6443 --token xxx --discovery-token-ca-cert-hash sha256:xxx\n\
\x20  ```\n\
\n\
7. 常用管理命令\n\
\x20  ```\n\
\x20  # 查看集群信息\n\
\x20  kubectl cluster-info\n\
\x20  kubectl get nodes\n\
\x20  kubectl get pods -A\n\
\n\
\x20  # 部署应用\n\
\x20  kubectl create deployment nginx --image=nginx\n\
\x20  kubectl expose deployment nginx --port=80 --type=LoadBalancer\n\
\x20  ```\n\
\n\
提示: 生产环境建议使用高可用部署，至少3个Master节点。\n\
";

/// The guide page: deploying and running a full Kubernetes cluster.
pub fn get_info() -> (r: String)
    ensures
        r@ == K8S_GUIDE@,
{
    K8S_GUIDE.to_owned()
}

} // verus!
