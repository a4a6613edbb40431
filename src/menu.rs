use vstd::prelude::*;

verus! {

/// The entries of the dashboard's main menu, in display order.
#[derive(Clone, Copy, Debug, PartialEq, Eq, Structural)]
pub enum MenuItem {
    SystemInfo,
    DiskTest,
    CpuTest,
    NetworkSpeedTest,
    CrossGFW,
    OpenPort,
    ClosePort,
    K3s,
    K8s,
    TcpOptimization,
}

/// The menu's entries in display order.
pub open spec fn all_items() -> Seq<MenuItem> {
    seq![
        MenuItem::SystemInfo,
        MenuItem::DiskTest,
        MenuItem::CpuTest,
        MenuItem::NetworkSpeedTest,
        MenuItem::CrossGFW,
        MenuItem::OpenPort,
        MenuItem::ClosePort,
        MenuItem::K3s,
        MenuItem::K8s,
        MenuItem::TcpOptimization,
    ]
}

/// The entry that digit key `c` selects: '1' to '9' the first nine, '0' the tenth.
pub open spec fn digit_index(c: char) -> Option<int> {
    if '1' <= c && c <= '9' {
        Some(c as int - '1' as int)
    } else if c == '0' {
        Some(9)
    } else {
        None
    }
}

pub open spec fn label_of(item: MenuItem) -> Seq<char> {
    match item {
        MenuItem::SystemInfo => "1. 系统信息"@,
        MenuItem::DiskTest => "2. 硬盘测试"@,
        MenuItem::CpuTest => "3. CPU测试"@,
        MenuItem::NetworkSpeedTest => "4. 网速测试"@,
        MenuItem::CrossGFW => "5. 科学上网"@,
        MenuItem::OpenPort => "6. 开放端口"@,
        MenuItem::ClosePort => "7. 关闭端口"@,
        MenuItem::K3s => "8. k3s"@,
        MenuItem::K8s => "9. k8s"@,
        MenuItem::TcpOptimization => "0. tcp调优"@,
    }
}

pub open spec fn description_of(item: MenuItem) -> Seq<char> {
    match item {
        MenuItem::SystemInfo => "查看系统详细信息"@,
        MenuItem::DiskTest => "测试硬盘读写性能"@,
        MenuItem::CpuTest => "测试CPU性能"@,
        MenuItem::NetworkSpeedTest => "测试网络速度"@,
        MenuItem::CrossGFW => "科学上网"@,
        MenuItem::OpenPort => "开放防火墙端口"@,
        MenuItem::ClosePort => "关闭防火墙端口"@,
        MenuItem::K3s => "部署轻量级Kubernetes"@,
        MenuItem::K8s => "部署完整版Kubernetes"@,
        MenuItem::TcpOptimization => "优化TCP网络参数"@,
    }
}

impl MenuItem {
    /// All entries, in display order.
    pub fn all() -> (r: Vec<MenuItem>)
        ensures
            r@ == all_items(),
    {
        let r = vec![
            MenuItem::SystemInfo,
            MenuItem::DiskTest,
            MenuItem::CpuTest,
            MenuItem::NetworkSpeedTest,
            MenuItem::CrossGFW,
            MenuItem::OpenPort,
            MenuItem::ClosePort,
            MenuItem::K3s,
            MenuItem::K8s,
            MenuItem::TcpOptimization,
        ];
        assert(r@ =~= all_items());
        r
    }

    /// The label shown in the menu, with the digit key that selects the entry.
    pub fn as_str(&self) -> (r: &'static str)
        ensures
            r@ == label_of(*self),
    {
        match self {
            MenuItem::SystemInfo => "1. 系统信息",
            MenuItem::DiskTest => "2. 硬盘测试",
            MenuItem::CpuTest => "3. CPU测试",
            MenuItem::NetworkSpeedTest => "4. 网速测试",
            MenuItem::CrossGFW => "5. 科学上网",
            MenuItem::OpenPort => "6. 开放端口",
            MenuItem::ClosePort => "7. 关闭端口",
            MenuItem::K3s => "8. k3s",
            MenuItem::K8s => "9. k8s",
            MenuItem::TcpOptimization => "0. tcp调优",
        }
    }

    /// A one-line description of the entry.
    pub fn description(&self) -> (r: &'static str)
        ensures
            r@ == description_of(*self),
    {
        match self {
            MenuItem::SystemInfo => "查看系统详细信息",
            MenuItem::DiskTest => "测试硬盘读写性能",
            MenuItem::CpuTest => "测试CPU性能",
            MenuItem::NetworkSpeedTest => "测试网络速度",
            MenuItem::CrossGFW => "科学上网",
            MenuItem::OpenPort => "开放防火墙端口",
            MenuItem::ClosePort => "关闭防火墙端口",
            MenuItem::K3s => "部署轻量级Kubernetes",
            MenuItem::K8s => "部署完整版Kubernetes",
            MenuItem::TcpOptimization => "优化TCP网络参数",
        }
    }
}

/// The main menu: its entries and the one selected.
pub struct Menu {
    items: Vec<MenuItem>,
    selected: usize,
}

impl View for Menu {
    type V = int;

    /// The index of the selected entry.
    closed spec fn view(&self) -> int {
        self.selected as int
    }
}

impl Menu {
    pub closed spec fn wf(&self) -> bool {
        self.items@ == all_items() && self.selected < self.items.len()
    }

    /// The menu with its first entry selected.
    pub fn new() -> (r: Self)
        ensures
            r.wf(),
            r@ == 0,
    {
        Menu { items: MenuItem::all(), selected: 0 }
    }

    /// Selects the next entry; stays on the last one.
    pub fn next(&mut self)
        requires
            old(self).wf(),
        ensures
            final(self).wf(),
            final(self)@ == if old(self)@ < all_items().len() - 1 {
                old(self)@ + 1
            } else {
                old(self)@
            },
    {
        if self.selected < self.items.len() - 1 {
            self.selected = self.selected + 1;
        }
    }

    /// Selects the previous entry; stays on the first one.
    pub fn previous(&mut self)
        requires
            old(self).wf(),
        ensures
            final(self).wf(),
            final(self)@ == if old(self)@ > 0 {
                old(self)@ - 1
            } else {
                old(self)@
            },
    {
        if self.selected > 0 {
            self.selected = self.selected - 1;
        }
    }

    pub fn selected_item(&self) -> (r: MenuItem)
        requires
            self.wf(),
        ensures
            0 <= self@ < all_items().len(),
            r == all_items()[self@],
    {
        self.items[self.selected]
    }

    pub fn selected_index(&self) -> (r: usize)
        ensures
            r == self@,
    {
        self.selected
    }

    pub fn items(&self) -> (r: &[MenuItem])
        requires
            self.wf(),
        ensures
            r@ == all_items(),
    {
        self.items.as_slice()
    }

    /// Selects the entry of digit key `number` ('1' to '9', then '0'); any other key
    /// selects nothing and returns false.
    pub fn select_by_number(&mut self, number: char) -> (r: bool)
        requires
            old(self).wf(),
        ensures
            final(self).wf(),
            r == digit_index(number) is Some,
            final(self)@ == match digit_index(number) {
                Some(i) => i,
                None => old(self)@,
            },
    {
        let index: usize = if '1' <= number && number <= '9' {
            (number as u32 - '1' as u32) as usize
        } else if number == '0' {
            9
        } else {
            return false;
        };
        if index < self.items.len() {
            self.selected = index;
            true
        } else {
            false
        }
    }
}

} // verus!
