//! Helpers for test harnesses: port allocation for instances under
//! test, and the test-side TLS switch.

use vstd::prelude::*;

verus! {

use vstd::wrapping::u16_specs;

/// Hands out blocks of ports to test instances, counting upward.
#[derive(Debug)]
pub struct PortManager {
    pub next_port: u16,
}

impl PortManager {
    /// A manager starting at the given base port.
    pub fn new(base_port: u16) -> (r: PortManager)
        ensures
            r.next_port == base_port,
    {
        PortManager { next_port: base_port }
    }

    /// Reserves a block of `port_count` ports: returns its first port
    /// and moves the counter past it (wrapping, as a counter).
    pub fn reserve(&mut self, port_count: usize) -> (r: u16)
        ensures
            r == old(self).next_port,
            final(self).next_port == u16_specs::wrapping_add(
                old(self).next_port,
                port_count as u16,
            ),
    {
        let r = self.next_port;
        let step = #[verifier::truncate] (port_count as u16);
        self.next_port = self.next_port.wrapping_add(step);
        r
    }
}

/// TLS settings of a cluster under test.
#[derive(Debug, Clone, Copy)]
pub struct TestTlsConfig {
    pub accept_invalid_certificates: bool,
}

impl Default for TestTlsConfig {
    fn default() -> (r: TestTlsConfig)
        ensures
            !r.accept_invalid_certificates,
    {
        TestTlsConfig { accept_invalid_certificates: false }
    }
}

impl TestTlsConfig {
    pub fn accept_invalid_certificates(self, accept_invalid_certificates: bool) -> (r:
        TestTlsConfig)
        ensures
            r.accept_invalid_certificates == accept_invalid_certificates,
    {
        let mut s = self;
        s.accept_invalid_certificates = accept_invalid_certificates;
        s
    }
}

} // verus!
