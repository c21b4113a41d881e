use vstd::prelude::*;

verus! {

/// The kind of a kernel map, as the kernel reports it.
#[derive(Debug, Clone, Copy, PartialEq, Eq, Structural)]
pub enum MapType {
    Unspec,
    Hash,
    Array,
    ProgArray,
    PerfEventArray,
    PercpuHash,
    PercpuArray,
    StackTrace,
    CgroupArray,
    LruHash,
    LruPercpuHash,
    LpmTrie,
    ArrayOfMaps,
    HashOfMaps,
    Devmap,
    Sockmap,
    Cpumap,
    Xskmap,
    Sockhash,
    CgroupStorage,
    ReuseportSockarray,
    PercpuCgroupStorage,
    Queue,
    Stack,
    SkStorage,
    DevmapHash,
    StructOps,
    RingBuf,
    InodeStorage,
    TaskStorage,
    BloomFilter,
    UserRingBuf,
    CgrpStorage,
    Unknown,
}

/// A channel as the map registry hands it out: its descriptor and its kind.
#[derive(Debug, Clone, Copy, PartialEq, Eq, Structural)]
pub struct BpfMap {
    pub fd: i32,
    pub map_type: MapType,
}

impl BpfMap {
    pub fn new(fd: i32, map_type: MapType) -> (r: BpfMap)
        ensures
            r.fd == fd,
            r.map_type == map_type,
    {
        BpfMap { fd, map_type }
    }

    /// The descriptor of the map.
    pub fn fd(&self) -> (r: i32)
        ensures
            r == self.fd,
    {
        self.fd
    }

    /// The kind of the map.
    pub fn map_type(&self) -> (r: MapType)
        ensures
            r == self.map_type,
    {
        self.map_type
    }
}

} // verus!
