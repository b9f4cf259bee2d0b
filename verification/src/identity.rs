//! Host identity: the hardware address of the primary network interface,
//! rendered as text, or absent.

use vstd::prelude::*;

verus! {

/// The error type of the `mac_address` crate, carried through unread.
#[verifier::external_type_specification]
#[verifier::external_body]
pub struct ExMacAddressError(mac_address::MacAddressError);

/// The sixteen upper-case hexadecimal digits, in order of value.
pub open spec fn upper_hex_digits() -> Seq<char> {
    seq!['0', '1', '2', '3', '4', '5', '6', '7', '8', '9', 'A', 'B', 'C', 'D', 'E', 'F']
}

/// One octet as two upper-case hexadecimal digits, high digit first.
pub open spec fn octet_text(octet: u8) -> Seq<char> {
    seq![upper_hex_digits()[octet as int / 16], upper_hex_digits()[octet as int % 16]]
}

/// A six-octet hardware address as text: the octets in order, each as two
/// upper-case hexadecimal digits, separated by colons.
pub open spec fn address_text(octets: Seq<u8>) -> Seq<char>
    recommends
        octets.len() == 6,
{
    octet_text(octets[0]) + seq![':'] + octet_text(octets[1]) + seq![':'] + octet_text(octets[2])
        + seq![':'] + octet_text(octets[3]) + seq![':'] + octet_text(octets[4]) + seq![':']
        + octet_text(octets[5])
}

/// Whether `text` is the rendering of some six-octet hardware address.
pub open spec fn is_address_text(text: Seq<char>) -> bool {
    exists|octets: Seq<u8>| octets.len() == 6 && text == #[trigger] address_text(octets)
}

/// Whether an address is one that a query for the primary interface can find:
/// some octet of it is not zero. Interfaces whose address is all zeros, such
/// as the local loopback, are passed over.
pub open spec fn is_usable(octets: Seq<u8>) -> bool {
    exists|k: int| 0 <= k < octets.len() && #[trigger] octets[k] != 0
}

/// Whether `text` is the rendering of a usable six-octet hardware address.
pub open spec fn is_host_address_text(text: Seq<char>) -> bool {
    exists|octets: Seq<u8>|
        octets.len() == 6 && is_usable(octets) && text == #[trigger] address_text(octets)
}

/// The hardware address of a network interface.
#[derive(Clone, Copy, Debug, PartialEq, Eq)]
pub struct HardwareAddress {
    pub octets: [u8; 6],
}

impl View for HardwareAddress {
    type V = Seq<u8>;

    open spec fn view(&self) -> Seq<u8> {
        self.octets@
    }
}

impl HardwareAddress {
    /// The address with the given octets.
    pub fn new(octets: [u8; 6]) -> (address: HardwareAddress)
        ensures
            address == (HardwareAddress { octets }),
    {
        HardwareAddress { octets }
    }

    /// The text form of this address.
    pub fn to_text(&self) -> (text: String)
        ensures
            text@ == address_text(self@),
    {
        render_address(self.octets)
    }
}

/// What a query for the primary interface's hardware address came to.
#[derive(Clone, Copy, Debug, PartialEq, Eq)]
pub enum Lookup {
    /// An interface with a hardware address exists.
    Found(HardwareAddress),
    /// The host has no usable interface.
    NotFound,
    /// The operating system refused or failed the query.
    Failed,
}

/// The host identity that a lookup stands for: the address text where an
/// interface was found, and absent otherwise. A failed query is not told
/// apart from a host without interfaces.
pub open spec fn identity_of(lookup: Lookup) -> Option<Seq<char>> {
    match lookup {
        Lookup::Found(address) => Some(address_text(address@)),
        Lookup::NotFound => None,
        Lookup::Failed => None,
    }
}

/// Calls `mac_address::get_mac_address` and hands out the octets of the
/// address it found. Which of the three outcomes comes back depends on the
/// host. The one thing claimed is what the crate's search shows on every
/// platform it supports: it returns the first address with an octet that is
/// not zero, so an address that was found is never all zeros.
#[verifier::external_body]
fn query_primary_interface() -> (outcome: Result<Option<[u8; 6]>, mac_address::MacAddressError>)
    ensures
        outcome matches Ok(Some(octets)) ==> is_usable(octets@),
{
    match mac_address::get_mac_address() {
        Ok(Some(found)) => Ok(Some(found.bytes())),
        Ok(None) => Ok(None),
        Err(error) => Err(error),
    }
}

/// Calls `to_string` on the `mac_address::MacAddress` with the given octets.
/// Its `Display` writes each octet as two upper-case hexadecimal digits, padded
/// with a zero, and puts a colon between them.
#[verifier::external_body]
fn render_address(octets: [u8; 6]) -> (text: String)
    ensures
        text@ == address_text(octets@),
{
    mac_address::MacAddress::new(octets).to_string()
}

/// Sorts the outcome of a query into the three cases.
pub fn classify(outcome: Result<Option<[u8; 6]>, mac_address::MacAddressError>) -> (lookup: Lookup)
    ensures
        outcome matches Ok(Some(octets)) ==> lookup == Lookup::Found(HardwareAddress { octets }),
        outcome matches Ok(None) ==> lookup == Lookup::NotFound,
        outcome is Err ==> lookup == Lookup::Failed,
{
    match outcome {
        Ok(Some(octets)) => Lookup::Found(HardwareAddress::new(octets)),
        Ok(None) => Lookup::NotFound,
        Err(_) => Lookup::Failed,
    }
}

/// The host identity for a lookup: the address as text, or absent.
pub fn host_identity(lookup: &Lookup) -> (identity: Option<String>)
    ensures
        identity is Some <==> identity_of(*lookup) is Some,
        identity matches Some(text) ==> Some(text@) == identity_of(*lookup),
{
    match lookup {
        Lookup::Found(address) => Some(address.to_text()),
        Lookup::NotFound => None,
        Lookup::Failed => None,
    }
}

/// Queries the host for its primary interface: the first whose hardware
/// address is not all zeros. Whether one is found, none exists or the query
/// fails is for the host to decide.
pub fn lookup_host() -> (lookup: Lookup)
    ensures
        lookup matches Lookup::Found(address) ==> is_usable(address@),
{
    classify(query_primary_interface())
}

/// The hardware address of the host's primary network interface as text, or
/// absent if there is none or the query failed. Recomputed on every call.
pub fn get_mac_address() -> (identity: Option<String>)
    ensures
        identity matches Some(text) ==> is_host_address_text(text@),
        identity matches Some(text) ==> is_address_text(text@),
{
    let lookup = lookup_host();
    let identity = host_identity(&lookup);
    proof {
        if let Lookup::Found(address) = lookup {
            assert(address@.len() == 6);
            assert(is_usable(address@));
            assert(identity->0@ == address_text(address@));
        }
    }
    identity
}

/// The text of an address is seventeen characters long: six pairs of digits
/// with a colon after each pair but the last.
pub proof fn lemma_address_text_shape(octets: Seq<u8>)
    requires
        octets.len() == 6,
    ensures
        address_text(octets).len() == 17,
        forall|i: int| 0 <= i < 17 && i % 3 == 2 ==> address_text(octets)[i] == ':',
        forall|k: int|
            0 <= k < 6 ==> #[trigger] address_text(octets).subrange(3 * k, 3 * k + 2) == octet_text(
                octets[k],
            ),
{
    let text = address_text(octets);
    assert forall|k: int| 0 <= k < 6 implies #[trigger] text.subrange(3 * k, 3 * k + 2)
        == octet_text(octets[k]) by {
        assert(text.subrange(3 * k, 3 * k + 2) =~= octet_text(octets[k]));
    }
}

/// Two octets with the same two digits are the same octet.
pub proof fn lemma_octet_text_injective(first: u8, second: u8)
    requires
        octet_text(first) == octet_text(second),
    ensures
        first == second,
{
    let digits = upper_hex_digits();
    assert(forall|i: int, j: int| 0 <= i < j < 16 ==> digits[i] != digits[j]);
    assert(octet_text(first)[0] == digits[first as int / 16]);
    assert(octet_text(first)[1] == digits[first as int % 16]);
    assert(octet_text(second)[0] == digits[second as int / 16]);
    assert(octet_text(second)[1] == digits[second as int % 16]);
    assert(first as int / 16 == second as int / 16);
    assert(first as int % 16 == second as int % 16);
}

/// The text identifies the address: two addresses with the same text are the
/// same address.
pub proof fn lemma_address_text_injective(first: Seq<u8>, second: Seq<u8>)
    requires
        first.len() == 6,
        second.len() == 6,
        address_text(first) == address_text(second),
    ensures
        first == second,
{
    lemma_address_text_shape(first);
    lemma_address_text_shape(second);
    assert forall|k: int| 0 <= k < 6 implies first[k] == second[k] by {
        assert(address_text(first).subrange(3 * k, 3 * k + 2) == octet_text(first[k]));
        assert(address_text(second).subrange(3 * k, 3 * k + 2) == octet_text(second[k]));
        lemma_octet_text_injective(first[k], second[k]);
    }
    assert(first =~= second);
}

/// The identity is a function of what the query found: while the host's
/// interfaces do not change, two queries find the same, and the identity is
/// the same both times.
pub proof fn lemma_same_lookup_same_identity(first: Lookup, second: Lookup)
    requires
        first == second,
    ensures
        identity_of(first) == identity_of(second),
{
}

/// A host without a usable interface has no identity, and neither has one on
/// which the query failed; a host with an interface has one.
pub proof fn lemma_identity_absent_without_interface(lookup: Lookup)
    ensures
        lookup is NotFound ==> identity_of(lookup) is None,
        lookup is Failed ==> identity_of(lookup) is None,
        lookup is Found ==> identity_of(lookup) is Some,
{
}

/// The text of a usable address is never that of the address of all zeros.
pub proof fn lemma_host_address_text_is_not_null(text: Seq<char>)
    requires
        is_host_address_text(text),
    ensures
        text != address_text(seq![0u8, 0u8, 0u8, 0u8, 0u8, 0u8]),
{
    let octets = choose|octets: Seq<u8>|
        octets.len() == 6 && is_usable(octets) && text == #[trigger] address_text(octets);
    let zeros = seq![0u8, 0u8, 0u8, 0u8, 0u8, 0u8];
    if text == address_text(zeros) {
        lemma_address_text_injective(octets, zeros);
        let k = choose|k: int| 0 <= k < octets.len() && #[trigger] octets[k] != 0;
        assert(zeros[k] == 0);
    }
}

} // verus!
