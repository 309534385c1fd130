//! Data layouts of the kernel's calling interface.
#![allow(nonstandard_style)]
use vstd::prelude::*;

verus! {

/// Scheduling priority of a kernel thread.
#[derive(PartialEq, Eq, Structural, PartialOrd, Ord, Debug, Clone, Copy)]
pub struct Priority(u8);

impl View for Priority {
    type V = u8;

    closed spec fn view(&self) -> u8 {
        self.0
    }
}

impl Priority {
    /// The raw priority level.
    pub fn into(self) -> (r: u8)
        ensures
            r == self@,
    {
        self.0
    }

    /// A priority of the given raw level.
    pub fn from(x: u8) -> (r: Self)
        ensures
            r@ == x,
    {
        Priority(x)
    }
}

/// Equal raw levels make equal priorities.
pub proof fn lemma_priority_view_injective(a: Priority, b: Priority)
    ensures
        a@ == b@ <==> a == b,
{
}

/// A thread handle.
pub type Tid = u32;

pub type sa_family_t = u8;

pub type socklen_t = u32;

pub type time_t = i64;

pub type suseconds_t = i64;

/// A handle that identifies a socket.
#[derive(Debug, Clone, Copy, PartialEq, Eq, Structural, PartialOrd, Ord, Default, Hash)]
pub struct Handle(usize);

/// A point in time as seconds and nanoseconds, as `clock_gettime` gives it.
#[derive(Copy, Clone, Debug)]
pub struct timespec {
    /// seconds
    pub tv_sec: i64,
    /// nanoseconds
    pub tv_nsec: i64,
}

/// Internet protocol version.
#[derive(Debug, Hash, PartialEq, Eq, Structural, PartialOrd, Ord, Clone, Copy)]
pub enum Version {
    Unspecified,
    Ipv4,
    Ipv6,
}

/// A four-octet IPv4 address.
#[derive(Debug, Hash, PartialEq, Eq, PartialOrd, Ord, Clone, Copy, Default)]
pub struct Ipv4Address(pub [u8; 4]);

/// A sixteen-octet IPv6 address.
#[derive(Debug, Hash, PartialEq, Eq, PartialOrd, Ord, Clone, Copy, Default)]
pub struct Ipv6Address(pub [u8; 16]);

/// An internetworking address.
#[derive(Debug, Hash, PartialEq, Eq, PartialOrd, Ord, Clone, Copy)]
pub enum IpAddress {
    /// No address assigned yet.
    Unspecified,
    /// An IPv4 address.
    Ipv4(Ipv4Address),
    /// An IPv6 address.
    Ipv6(Ipv6Address),
}

#[derive(Debug, Copy, Clone)]
pub struct in_addr {
    pub s_addr: u32,
}

#[derive(Debug, Copy, Clone)]
pub struct in6_addr {
    pub s6_addr: [u8; 16],
}

#[derive(Debug, Copy, Clone)]
pub struct sockaddr {
    pub sa_len: u8,
    pub sa_family: sa_family_t,
    pub sa_data: [u8; 14],
}

#[derive(Debug, Copy, Clone)]
pub struct sockaddr_in {
    pub sin_len: u8,
    pub sin_family: sa_family_t,
    pub sin_port: u16,
    pub sin_addr: in_addr,
    pub sin_zero: [u8; 8],
}

#[derive(Debug, Copy, Clone)]
pub struct sockaddr_in6 {
    pub sin6_family: sa_family_t,
    pub sin6_port: u16,
    pub sin6_addr: in6_addr,
    pub sin6_flowinfo: u32,
    pub sin6_scope_id: u32,
}

#[derive(Debug, Copy, Clone)]
pub struct sockaddr_storage {
    pub s2_len: u8,
    pub ss_family: sa_family_t,
    pub s2_data1: [i8; 2],
    pub s2_data2: [u32; 3],
}

#[derive(Debug, Copy, Clone)]
pub struct ip_mreq {
    pub imr_multiaddr: in_addr,
    pub imr_interface: in_addr,
}

#[derive(Debug, Copy, Clone)]
pub struct ipv6_mreq {
    pub ipv6mr_multiaddr: in6_addr,
    pub ipv6mr_interface: u32,
}

#[derive(Debug, Copy, Clone)]
pub struct linger {
    pub l_onoff: i32,
    pub l_linger: i32,
}

#[derive(Debug, Copy, Clone)]
pub struct timeval {
    pub tv_sec: time_t,
    pub tv_usec: suseconds_t,
}

#[derive(Debug, Copy, Clone)]
pub struct pollfd {
    /// file descriptor
    pub fd: i32,
    /// events to look for
    pub events: i16,
    /// events returned
    pub revents: i16,
}

#[derive(Debug, Copy, Clone)]
pub struct dirent {
    pub d_ino: u64,
    pub d_off: u64,
    pub d_namelen: u32,
    pub d_type: u32,
    pub d_name: [u8; 0],
}

#[derive(Debug, Copy, Clone, Default)]
pub struct stat {
    pub st_dev: u64,
    pub st_ino: u64,
    pub st_nlink: u64,
    pub st_mode: u32,
    pub st_uid: u32,
    pub st_gid: u32,
    pub st_rdev: u64,
    pub st_size: i64,
    pub st_blksize: i64,
    pub st_blocks: i64,
    pub st_atime: i64,
    pub st_atime_nsec: i64,
    pub st_mtime: i64,
    pub st_mtime_nsec: i64,
    pub st_ctime: i64,
    pub st_ctime_nsec: i64,
    pub st_birthtime: i64,
    pub st_birthtime_nsec: i64,
}

/// Whether the file descriptor `_fd` refers to a terminal: the kernel has
/// none.
pub fn isatty(_fd: i32) -> (r: bool)
    ensures
        !r,
{
    false
}

pub type in_addr_t = u32;

pub type in_port_t = u16;

pub type nfds_t = usize;

pub type dev_t = u64;

pub type ino_t = u64;

pub type mode_t = u32;

pub type nlink_t = u64;

pub type uid_t = u32;

pub type gid_t = u32;

pub type off_t = i64;

pub type off64_t = i64;

pub type blksize_t = i32;

pub type blkcnt_t = i64;

pub type blkcnt64_t = i64;

/// Maximum number of priorities
pub const NO_PRIORITIES: usize = 31;

pub const NSEC_PER_SEC: u64 = 1_000_000_000;

pub const FUTEX_RELATIVE_TIMEOUT: u32 = 1;

pub const CLOCK_REALTIME: u64 = 1;

pub const CLOCK_MONOTONIC: u64 = 4;

pub const STDIN_FILENO: i32 = 0;

pub const STDOUT_FILENO: i32 = 1;

pub const STDERR_FILENO: i32 = 2;

pub const O_RDONLY: i32 = 0o0;

pub const O_WRONLY: i32 = 0o1;

pub const O_RDWR: i32 = 0o2;

pub const O_CREAT: i32 = 0o100;

pub const O_EXCL: i32 = 0o200;

pub const O_TRUNC: i32 = 0o1000;

pub const O_APPEND: i32 = 0o2000;

/// The largest number `rand` will return
pub const RAND_MAX: u64 = 2_147_483_647;

pub const AF_INET: i32 = 0;

pub const AF_INET6: i32 = 1;

pub const IPPROTO_IP: i32 = 0;

pub const IPPROTO_IPV6: i32 = 41;

pub const IPPROTO_UDP: i32 = 17;

pub const IPPROTO_TCP: i32 = 6;

pub const IPV6_ADD_MEMBERSHIP: i32 = 12;

pub const IPV6_DROP_MEMBERSHIP: i32 = 13;

pub const IPV6_MULTICAST_LOOP: i32 = 19;

pub const IPV6_V6ONLY: i32 = 27;

pub const IP_TTL: i32 = 2;

pub const IP_MULTICAST_TTL: i32 = 5;

pub const IP_MULTICAST_LOOP: i32 = 7;

pub const IP_ADD_MEMBERSHIP: i32 = 3;

pub const IP_DROP_MEMBERSHIP: i32 = 4;

pub const SHUT_RD: i32 = 0;

pub const SHUT_WR: i32 = 1;

pub const SHUT_RDWR: i32 = 2;

pub const SOCK_DGRAM: i32 = 2;

pub const SOCK_STREAM: i32 = 1;

pub const SOL_SOCKET: i32 = 4095;

pub const SO_BROADCAST: i32 = 32;

pub const SO_ERROR: i32 = 4103;

pub const SO_RCVTIMEO: i32 = 4102;

pub const SO_REUSEADDR: i32 = 4;

pub const SO_SNDTIMEO: i32 = 4101;

pub const SO_LINGER: i32 = 128;

pub const TCP_NODELAY: i32 = 1;

pub const MSG_PEEK: i32 = 1;

pub const FIONBIO: i32 = 0x8008667eu32 as i32;

pub const EAI_NONAME: i32 = -2200;

pub const EAI_SERVICE: i32 = -2201;

pub const EAI_FAIL: i32 = -2202;

pub const EAI_MEMORY: i32 = -2203;

pub const EAI_FAMILY: i32 = -2204;

pub const POLLIN: i16 = 0x1;

pub const POLLPRI: i16 = 0x2;

pub const POLLOUT: i16 = 0x4;

pub const POLLERR: i16 = 0x8;

pub const POLLHUP: i16 = 0x10;

pub const POLLNVAL: i16 = 0x20;

pub const POLLRDNORM: i16 = 0x040;

pub const POLLRDBAND: i16 = 0x080;

pub const POLLRDHUP: i16 = 0x2000;

pub const S_IFIFO: mode_t = 4096;

pub const S_IFCHR: mode_t = 8192;

pub const S_IFBLK: mode_t = 24576;

pub const S_IFDIR: mode_t = 16384;

pub const S_IFREG: mode_t = 32768;

pub const S_IFLNK: mode_t = 40960;

pub const S_IFSOCK: mode_t = 49152;

pub const S_IFMT: mode_t = 61440;

pub const S_IRWXU: mode_t = 448;

pub const S_IXUSR: mode_t = 64;

pub const S_IWUSR: mode_t = 128;

pub const S_IRUSR: mode_t = 256;

pub const S_IRWXG: mode_t = 56;

pub const S_IXGRP: mode_t = 8;

pub const S_IWGRP: mode_t = 16;

pub const S_IRGRP: mode_t = 32;

pub const S_IRWXO: mode_t = 7;

pub const S_IXOTH: mode_t = 1;

pub const S_IWOTH: mode_t = 2;

pub const S_IROTH: mode_t = 4;

pub const SEEK_SET: i32 = 0;

pub const SEEK_CUR: i32 = 1;

pub const SEEK_END: i32 = 2;

pub const DT_UNKNOWN: u32 = 0;

pub const DT_FIFO: u32 = 1;

pub const DT_CHR: u32 = 2;

pub const DT_DIR: u32 = 4;

pub const DT_BLK: u32 = 6;

pub const DT_REG: u32 = 8;

pub const DT_LNK: u32 = 10;

pub const DT_SOCK: u32 = 12;

pub const DT_WHT: u32 = 14;

/// Kinds and flags of littlefs entries.
pub const LF_DIR: u32 = 0b1 << 0;
pub const LF_FILE: u32 = 0b1 << 1;
pub const LF_SYMLINK: u32 = 0b1 << 2;
pub const LF_BLK: u32 = 0b1 << 3;
pub const LF_CHAR: u32 = 0b1 << 4;
pub const LF_FIFO: u32 = 0b1 << 5;
pub const LF_SOCKET_DGRAM: u32 = 0b1 << 6;
pub const LF_SOCKET_STREAM: u32 = 0b1 << 7;
pub const LF_RDONLY: u32 = 0b1 << 8;

} // verus!
