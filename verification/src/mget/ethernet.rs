//! Hardware addresses for a network device that exists only in software.

use crate::text::{hex_byte, push_hex_byte};
use vstd::prelude::*;

verus! {

/// A hardware address of six bytes.
#[derive(Debug)]
pub struct MacAddress(pub [u8; 6]);

/// Six bytes from the random number generator of the thread, by `rand::rng`
/// and `RngCore::fill_bytes`. They are left to chance, so nothing is claimed
/// of them.
#[verifier::external_body]
fn random_octets() -> (octet: [u8; 6]) {
    let mut octet = [0;6];
    rand::RngCore::fill_bytes(&mut rand::rng(), &mut octet);
    octet
}

/// The first byte of an address that is taken from `first`: the bit that
/// marks an address as set locally is switched on, the bit that marks an
/// address for a group is switched off.
pub open spec fn marked(first: u8) -> u8 {
    (first | 0b0000_0010) & 0b1111_1110
}

/// The six bytes in hexadecimal, with colons between them.
pub open spec fn address_chars(octet: Seq<u8>) -> Seq<char> {
    hex_byte(octet[0]) + seq![':'] + hex_byte(octet[1]) + seq![':'] + hex_byte(octet[2]) + seq![
        ':',
    ] + hex_byte(octet[3]) + seq![':'] + hex_byte(octet[4]) + seq![':'] + hex_byte(octet[5])
}

impl Default for MacAddress {
    fn default() -> (mac: Self)
        ensures
            mac.is_local(),
            mac.is_unicast(),
    {
        Self::new()
    }
}

impl MacAddress {
    /// Whether the address is marked as set locally, not by a maker of
    /// hardware.
    pub open spec fn is_local(self) -> bool {
        self.0[0] & 0b0000_0010 == 0b0000_0010
    }

    /// Whether the address names one device, not a group.
    pub open spec fn is_unicast(self) -> bool {
        self.0[0] & 0b0000_0001 == 0
    }

    /// The address made of the given bytes, marked as local and for one
    /// device. The other bits stay as they are.
    pub fn from_octets(octet: [u8; 6]) -> (mac: Self)
        ensures
            mac.0@ == octet@.update(0, marked(octet[0])),
            mac.is_local(),
            mac.is_unicast(),
    {
        let ghost given = octet@;
        let mut octet = octet;
        let first = octet[0];
        assert(marked(first) & 0b0000_0010 == 0b0000_0010 && marked(first) & 0b0000_0001 == 0) by (bit_vector)
            requires
                marked(first) == (first | 0b0000_0010) & 0b1111_1110,
        ;
        octet[0] = (first | 0b0000_0010) & 0b1111_1110;
        let mac = MacAddress(octet);
        assert(mac.0@ =~= given.update(0, marked(first)));
        mac
    }

    /// A random address, marked as local and for one device.
    pub fn new() -> (mac: Self)
        ensures
            mac.is_local(),
            mac.is_unicast(),
    {
        MacAddress::from_octets(random_octets())
    }

    /// The bytes of the address.
    pub fn octets(&self) -> (octet: [u8; 6])
        ensures
            octet == self.0,
    {
        self.0
    }

    /// The address as it is written: six bytes in hexadecimal, with two
    /// digits each and colons between them.
    pub fn text(&self) -> (text: String)
        ensures
            text@ == address_chars(self.0@),
    {
        let octet = self.0;
        let mut text = String::new();
        push_hex_byte(&mut text, octet[0]);
        text.push(':');
        push_hex_byte(&mut text, octet[1]);
        text.push(':');
        push_hex_byte(&mut text, octet[2]);
        text.push(':');
        push_hex_byte(&mut text, octet[3]);
        text.push(':');
        push_hex_byte(&mut text, octet[4]);
        text.push(':');
        push_hex_byte(&mut text, octet[5]);
        assert(text@ =~= address_chars(self.0@));
        text
    }
}

} // verus!
