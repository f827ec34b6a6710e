//! Matter-over-Thread configuration for Gateway H2 applications.
//!
//! The Gateway H2 provides the Thread-capable side of the stack; firmware owns
//! the Matter server, endpoint model, persistence and commissioning policy.
//! Names are held in fixed-capacity `heapless` strings: a name longer than
//! the capacity is not stored at all.

use vstd::prelude::*;
use vstd::string::StringSliceAdditionalSpecFns;

use super::GatewayH2;

verus! {

/// Default Matter secure port.
pub const DEFAULT_MATTER_PORT: u16 = 5540;
/// Default Matter setup discriminator length in decimal digits.
pub const SETUP_DISCRIMINATOR_DIGITS: u8 = 12;

#[verifier::external_type_specification]
#[verifier::external_body]
pub struct ExHeaplessString<const N: usize>(heapless::String<N>);

/// `Clone` of `heapless::String`: a copy of the string (nothing further is
/// stated of the copy).
pub assume_specification<const N: usize>[<heapless::String<N> as Clone>::clone](
    s: &heapless::String<N>,
) -> heapless::String<N>;

/// The bytes a 32-byte `heapless::String` holds.
pub uninterp spec fn string32_bytes(s: heapless::String<32>) -> Seq<u8>;

/// The bytes a 16-byte `heapless::String` holds.
pub uninterp spec fn string16_bytes(s: heapless::String<16>) -> Seq<u8>;

/// `heapless::String::<32>::new`: an empty string.
#[verifier::external_body]
fn string32_new() -> (r: heapless::String<32>)
    ensures
        string32_bytes(r) == Seq::<u8>::empty(),
{
    heapless::String::new()
}

/// `heapless::String::<32>::push_str`: appends the text when it fits in the
/// remaining capacity, else leaves the string unchanged and fails.
#[verifier::external_body]
fn string32_push_str(s: &mut heapless::String<32>, text: &str) -> (r: Result<(), ()>)
    ensures
        string32_bytes(*old(s)).len() + text.spec_bytes().len() <= 32 ==> r is Ok && string32_bytes(
            *final(s),
        ) == string32_bytes(*old(s)) + text.spec_bytes(),
        string32_bytes(*old(s)).len() + text.spec_bytes().len() > 32 ==> r is Err && string32_bytes(
            *final(s),
        ) == string32_bytes(*old(s)),
{
    s.push_str(text)
}

/// `heapless::String::<16>::new`: an empty string.
#[verifier::external_body]
fn string16_new() -> (r: heapless::String<16>)
    ensures
        string16_bytes(r) == Seq::<u8>::empty(),
{
    heapless::String::new()
}

/// `heapless::String::<16>::push_str`: appends the text when it fits in the
/// remaining capacity, else leaves the string unchanged and fails.
#[verifier::external_body]
fn string16_push_str(s: &mut heapless::String<16>, text: &str) -> (r: Result<(), ()>)
    ensures
        string16_bytes(*old(s)).len() + text.spec_bytes().len() <= 16 ==> r is Ok && string16_bytes(
            *final(s),
        ) == string16_bytes(*old(s)) + text.spec_bytes(),
        string16_bytes(*old(s)).len() + text.spec_bytes().len() > 16 ==> r is Err && string16_bytes(
            *final(s),
        ) == string16_bytes(*old(s)),
{
    s.push_str(text)
}

/// The name stored for `text` in a string of `capacity` bytes: the text when
/// it fits, nothing otherwise.
pub open spec fn stored_name(text: Seq<u8>, capacity: int) -> Seq<u8> {
    if text.len() <= capacity {
        text
    } else {
        Seq::empty()
    }
}

/// What a node needs to advertise and commission itself over Thread.
#[derive(Clone, Debug, PartialEq, Eq)]
pub struct MatterServerConfig {
    pub vendor_id: u16,
    pub product_id: u16,
    pub discriminator: u16,
    pub setup_passcode: u32,
    pub device_name: heapless::String<32>,
    pub port: u16,
}

impl MatterServerConfig {
    /// A configuration on the default port; a device name longer than 32
    /// bytes is not stored.
    pub fn new(
        vendor_id: u16,
        product_id: u16,
        discriminator: u16,
        setup_passcode: u32,
        device_name: &str,
    ) -> (r: Self)
        ensures
            r.vendor_id == vendor_id,
            r.product_id == product_id,
            r.discriminator == discriminator,
            r.setup_passcode == setup_passcode,
            string32_bytes(r.device_name) == stored_name(device_name.spec_bytes(), 32),
            r.port == DEFAULT_MATTER_PORT,
    {
        let mut name = string32_new();
        let _ = string32_push_str(&mut name, device_name);
        assert(Seq::<u8>::empty() + device_name.spec_bytes() =~= device_name.spec_bytes());
        MatterServerConfig {
            vendor_id,
            product_id,
            discriminator,
            setup_passcode,
            device_name: name,
            port: DEFAULT_MATTER_PORT,
        }
    }

    /// The same configuration on another port.
    pub fn with_port(self, port: u16) -> (r: Self)
        ensures
            r.port == port,
            r.vendor_id == self.vendor_id,
            r.product_id == self.product_id,
            r.discriminator == self.discriminator,
            r.setup_passcode == self.setup_passcode,
            r.device_name == self.device_name,
    {
        let mut s = self;
        s.port = port;
        s
    }
}

/// Thread dataset values provisioned through the co-processor.
#[derive(Clone, Debug, PartialEq, Eq)]
pub struct ThreadDatasetConfig {
    pub network_name: heapless::String<16>,
    pub pan_id: u16,
    pub extended_pan_id: [u8; 8],
    pub channel: u8,
    pub network_key: [u8; 16],
}

impl ThreadDatasetConfig {
    /// A dataset; a network name longer than 16 bytes is not stored.
    pub fn new(
        network_name: &str,
        pan_id: u16,
        extended_pan_id: [u8; 8],
        channel: u8,
        network_key: [u8; 16],
    ) -> (r: Self)
        ensures
            string16_bytes(r.network_name) == stored_name(network_name.spec_bytes(), 16),
            r.pan_id == pan_id,
            r.extended_pan_id == extended_pan_id,
            r.channel == channel,
            r.network_key == network_key,
    {
        let mut name = string16_new();
        let _ = string16_push_str(&mut name, network_name);
        assert(Seq::<u8>::empty() + network_name.spec_bytes() =~= network_name.spec_bytes());
        ThreadDatasetConfig { network_name: name, pan_id, extended_pan_id, channel, network_key }
    }
}

/// The gateway, Matter and Thread settings of one node.
#[derive(Clone, Debug, PartialEq, Eq)]
pub struct MatterOverThreadConfig {
    pub gateway: GatewayH2,
    pub matter: MatterServerConfig,
    pub thread: ThreadDatasetConfig,
}

impl MatterOverThreadConfig {
    pub fn new(gateway: GatewayH2, matter: MatterServerConfig, thread: ThreadDatasetConfig) -> (r:
        Self)
        ensures
            r.gateway == gateway,
            r.matter == matter,
            r.thread == thread,
    {
        MatterOverThreadConfig { gateway, matter, thread }
    }
}

} // verus!
