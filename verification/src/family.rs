//! The netlink protocol families: the set of kernel subsystems a
//! netlink socket can speak to. Inert configuration data; this crate
//! only ever dumps through the socket-monitoring family, but the
//! framing primitives are family-agnostic.

use vstd::prelude::*;

verus! {

/// Routing and device hook.
pub const NETLINK_ROUTE: i32 = 0;

/// Unused number.
pub const NETLINK_UNUSED: i32 = 1;

/// Reserved for user-mode socket protocols.
pub const NETLINK_USERSOCK: i32 = 2;

/// Unused number, formerly the IP queue.
pub const NETLINK_FIREWALL: i32 = 3;

/// Socket monitoring: the family this crate's dump requests use.
pub const NETLINK_SOCK_DIAG: i32 = 4;

/// Netfilter and iptables logging.
pub const NETLINK_NFLOG: i32 = 5;

/// IPsec.
pub const NETLINK_XFRM: i32 = 6;

/// SELinux event notifications.
pub const NETLINK_SELINUX: i32 = 7;

/// Open-iSCSI.
pub const NETLINK_ISCSI: i32 = 8;

/// Auditing.
pub const NETLINK_AUDIT: i32 = 9;

/// Forwarding-table lookups.
pub const NETLINK_FIB_LOOKUP: i32 = 10;

/// Kernel connector.
pub const NETLINK_CONNECTOR: i32 = 11;

/// Netfilter subsystem.
pub const NETLINK_NETFILTER: i32 = 12;

/// IPv6 firewall.
pub const NETLINK_IP6_FW: i32 = 13;

/// DECnet routing messages.
pub const NETLINK_DNRTMSG: i32 = 14;

/// Kernel messages to userspace.
pub const NETLINK_KOBJECT_UEVENT: i32 = 15;

/// Generic netlink.
pub const NETLINK_GENERIC: i32 = 16;

/// SCSI transports.
pub const NETLINK_SCSITRANSPORT: i32 = 18;

/// eCryptfs.
pub const NETLINK_ECRYPTFS: i32 = 19;

/// RDMA.
pub const NETLINK_RDMA: i32 = 20;

/// Crypto layer.
pub const NETLINK_CRYPTO: i32 = 21;

} // verus!
