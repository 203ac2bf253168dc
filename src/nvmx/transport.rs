//! Transport ids of NVMe over Fabrics targets.

use vstd::prelude::*;

verus! {

/// The transport of a target; TCP only for now.
#[derive(Clone, Copy, Debug, PartialEq, Eq, Structural)]
pub enum TransportId {
    Tcp,
}

impl TransportId {
    /// The transport's name.
    pub fn name(&self) -> (r: &'static str)
        ensures
            r@ == "tcp"@,
    {
        "tcp"
    }
}

/// The address family of a target.
#[derive(Clone, Copy, Debug, PartialEq, Eq, Structural)]
pub enum AdressFamily {
    NvmfAdrfamIpv4,
    NvmfAdrfamIpv6,
    NvmfAdrfamIb,
    NvmfAdrfamFc,
    NvmfAdrfamLoop,
}

/// The id of a target: transport, address family, address, service id
/// (port) and subsystem NQN.
#[derive(Debug)]
pub struct NvmeTransportId {
    pub trtype: TransportId,
    pub adrfam: AdressFamily,
    pub traddr: String,
    pub trsvcid: String,
    pub subnqn: String,
}

impl NvmeTransportId {
    /// The transport's name.
    pub fn trtype(&self) -> (r: String)
        ensures
            r@ == "tcp"@,
    {
        String::from_str(self.trtype.name())
    }

    /// The address.
    pub fn traddr(&self) -> (r: String)
        ensures
            r@ == self.traddr@,
    {
        self.traddr.clone()
    }

    /// The subsystem NQN.
    pub fn subnqn(&self) -> (r: String)
        ensures
            r@ == self.subnqn@,
    {
        self.subnqn.clone()
    }

    /// The service id (port).
    pub fn svcid(&self) -> (r: String)
        ensures
            r@ == self.trsvcid@,
    {
        self.trsvcid.clone()
    }
}

/// Builds a transport id; TCP over IPv4 unless told otherwise.
#[derive(Debug)]
pub struct Builder {
    pub trid: TransportId,
    pub adrfam: AdressFamily,
    pub svcid: String,
    pub traddr: String,
    pub subnqn: String,
}

impl Builder {
    /// A builder for TCP over IPv4 with empty address, port and NQN.
    pub fn new() -> (r: Builder)
        ensures
            r.trid == TransportId::Tcp,
            r.adrfam == AdressFamily::NvmfAdrfamIpv4,
            r.svcid@.len() == 0,
            r.traddr@.len() == 0,
            r.subnqn@.len() == 0,
    {
        Builder {
            trid: TransportId::Tcp,
            adrfam: AdressFamily::NvmfAdrfamIpv4,
            svcid: String::new(),
            traddr: String::new(),
            subnqn: String::new(),
        }
    }

    /// The address to connect to.
    pub fn with_traddr(self, traddr: &str) -> (r: Builder)
        ensures
            r.traddr@ == traddr@,
            r.svcid@ == self.svcid@,
            r.subnqn@ == self.subnqn@,
            r.trid == self.trid,
            r.adrfam == self.adrfam,
    {
        Builder { traddr: String::from_str(traddr), ..self }
    }

    /// The service id (port) to connect to.
    pub fn with_svcid(self, svcid: &str) -> (r: Builder)
        ensures
            r.svcid@ == svcid@,
            r.traddr@ == self.traddr@,
            r.subnqn@ == self.subnqn@,
            r.trid == self.trid,
            r.adrfam == self.adrfam,
    {
        Builder { svcid: String::from_str(svcid), ..self }
    }

    /// The target's NQN.
    pub fn with_subnqn(self, subnqn: &str) -> (r: Builder)
        ensures
            r.subnqn@ == subnqn@,
            r.traddr@ == self.traddr@,
            r.svcid@ == self.svcid@,
            r.trid == self.trid,
            r.adrfam == self.adrfam,
    {
        Builder { subnqn: String::from_str(subnqn), ..self }
    }

    /// The transport id.
    pub fn build(self) -> (r: NvmeTransportId)
        ensures
            r.trtype == self.trid,
            r.adrfam == self.adrfam,
            r.traddr@ == self.traddr@,
            r.trsvcid@ == self.svcid@,
            r.subnqn@ == self.subnqn@,
    {
        NvmeTransportId { trtype: self.trid, adrfam: self.adrfam, traddr: self.traddr, trsvcid: self.svcid, subnqn: self.subnqn }
    }
}

} // verus!
