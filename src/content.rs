use vstd::prelude::*;
use crate::menu::MenuItem;
use crate::{k3s, k8s, port_manager, sing_box, tcp_optimizer, xray};

verus! {

/// The fixed guide page of `item`, or `None` for the entries whose page is drawn from
/// live state (system information and the three tests).
pub open spec fn page_of(item: MenuItem) -> Option<Seq<char>> {
    match item {
        MenuItem::CrossGFW => Some(sing_box::SING_BOX_GUIDE@ + "\n"@ + xray::XRAY_GUIDE@),
        MenuItem::OpenPort => Some(port_manager::OPEN_PORT_GUIDE@),
        MenuItem::ClosePort => Some(port_manager::CLOSE_PORT_GUIDE@),
        MenuItem::K3s => Some(k3s::K3S_GUIDE@),
        MenuItem::K8s => Some(k8s::K8S_GUIDE@),
        MenuItem::TcpOptimization => Some(tcp_optimizer::TCP_GUIDE@),
        _ => None,
    }
}

/// The guide text shown for `item` (see `page_of`).
pub fn get_content(item: MenuItem) -> (r: Option<String>)
    ensures
        match r {
            Some(s) => page_of(item) == Some(s@),
            None => page_of(item) is None,
        },
{
    match item {
        MenuItem::CrossGFW => {
            let mut s = sing_box::get_info();
            s.append("\n");
            s.append(xray::XRAY_GUIDE);
            Some(s)
        },
        MenuItem::OpenPort => Some(port_manager::get_open_port_info()),
        MenuItem::ClosePort => Some(port_manager::get_close_port_info()),
        MenuItem::K3s => Some(k3s::get_info()),
        MenuItem::K8s => Some(k8s::get_info()),
        MenuItem::TcpOptimization => Some(tcp_optimizer::get_info()),
        _ => None,
    }
}

} // verus!
