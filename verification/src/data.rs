//! Port descriptors: the immutable metadata that discovery yields and the
//! sampling engine consumes at construction.

use vstd::prelude::*;
use vstd::string::StringExecFns;

verus! {

/// Whether a monitored port is an RDMA/InfiniBand device port or a physical
/// Ethernet interface. This decides which counter files are read and how a
/// raw counter unit translates into bytes.
#[derive(Debug, Clone, Copy, PartialEq, Eq, Structural)]
pub enum PortType {
    Rdma,
    Ethernet,
}

impl PortType {
    /// How many bytes one raw counter unit stands for: RDMA data counters
    /// count 4-byte words, Ethernet counters count bytes directly.
    pub open spec fn spec_bytes_per_count(self) -> u64 {
        match self {
            PortType::Rdma => 4,
            PortType::Ethernet => 1,
        }
    }

    /// Executable form of the unit multiplier, fixed once per engine.
    pub fn bytes_per_count(self) -> (r: u64)
        ensures
            r == self.spec_bytes_per_count(),
    {
        match self {
            PortType::Rdma => 4,
            PortType::Ethernet => 1,
        }
    }
}

/// Immutable descriptor of one monitored port, produced by discovery and
/// consumed once when the port's sampling engine is constructed.
#[derive(Debug, Clone)]
pub struct PortInfo {
    /// Display name, e.g. "mlx5_0-1" or "eth0".
    pub name: String,
    /// Port kind, deciding counter layout and unit multiplier.
    pub port_type: PortType,
    /// Device component of the counter path ("mlx5_0", "eth0").
    pub device_path_part: String,
    /// Port-number component of the counter path ("1" for RDMA, empty for
    /// Ethernet, which has no per-port subdirectory).
    pub port_num_part: String,
}

impl PortInfo {
    pub fn new(name: String, port_type: PortType, dev: String, port: String) -> (r: Self)
        ensures
            r.name == name,
            r.port_type == port_type,
            r.device_path_part == dev,
            r.port_num_part == port,
    {
        Self { name, port_type, device_path_part: dev, port_num_part: port }
    }

    /// Where this port's receive counter lives.
    pub open spec fn spec_rx_counter_path(self) -> Seq<char> {
        match self.port_type {
            PortType::Rdma => "/sys/class/infiniband/"@ + self.device_path_part@ + "/ports/"@
                + self.port_num_part@ + "/counters/port_rcv_data"@,
            PortType::Ethernet => "/sys/class/net/"@ + self.device_path_part@
                + "/statistics/rx_bytes"@,
        }
    }

    /// Where this port's transmit counter lives.
    pub open spec fn spec_tx_counter_path(self) -> Seq<char> {
        match self.port_type {
            PortType::Rdma => "/sys/class/infiniband/"@ + self.device_path_part@ + "/ports/"@
                + self.port_num_part@ + "/counters/port_xmit_data"@,
            PortType::Ethernet => "/sys/class/net/"@ + self.device_path_part@
                + "/statistics/tx_bytes"@,
        }
    }

    /// Build the (rx, tx) counter paths this descriptor points at: an RDMA
    /// port's counters sit under its device's per-port counter directory,
    /// an Ethernet interface's under its statistics directory.
    pub fn counter_paths(&self) -> (r: (String, String))
        ensures
            r.0@ == self.spec_rx_counter_path(),
            r.1@ == self.spec_tx_counter_path(),
    {
        match self.port_type {
            PortType::Rdma => {
                let mut base = String::from_str("/sys/class/infiniband/");
                base.append(self.device_path_part.as_str());
                base.append("/ports/");
                base.append(self.port_num_part.as_str());
                let mut rx = base.clone();
                rx.append("/counters/port_rcv_data");
                let mut tx = base;
                tx.append("/counters/port_xmit_data");
                (rx, tx)
            },
            PortType::Ethernet => {
                let mut rx = String::from_str("/sys/class/net/");
                rx.append(self.device_path_part.as_str());
                let mut tx = rx.clone();
                rx.append("/statistics/rx_bytes");
                tx.append("/statistics/tx_bytes");
                (rx, tx)
            },
        }
    }
}

} // verus!
