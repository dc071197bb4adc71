use vstd::prelude::*;
use crate::text::push_char;

verus! {

/// An IPv4 socket address: four octets and a port.
#[derive(Clone, Copy, Debug, PartialEq, Eq)]
pub struct PeerAddress {
    pub octets: [u8; 4],
    pub port: u16,
}

/// One result of name resolution, in the order the resolver gave it.
#[derive(Clone, Copy, Debug, PartialEq, Eq)]
pub enum Resolved {
    V4(PeerAddress),
    V6,
}

/// The address of a peer as the node's RPC interface carries it.
#[derive(Clone, Debug)]
pub struct WireAddress {
    pub ip: String,
    pub port: u32,
}

/// The first IPv4 result of a resolution sequence, if there is one.
pub open spec fn first_ipv4(s: Seq<Resolved>) -> Option<PeerAddress>
    decreases s.len(),
{
    if s.len() == 0 {
        None
    } else {
        match s[0] {
            Resolved::V4(p) => Some(p),
            Resolved::V6 => first_ipv4(s.drop_first()),
        }
    }
}

/// Picks the first IPv4 result, in the order the resolver returned them.
pub fn find_ipv4(results: &Vec<Resolved>) -> (r: Option<PeerAddress>)
    ensures
        r == first_ipv4(results@),
{
    let mut i: usize = 0;
    assert(results@.skip(0) =~= results@);
    while i < results.len()
        invariant
            i <= results@.len(),
            first_ipv4(results@) == first_ipv4(results@.skip(i as int)),
        decreases results@.len() - i,
    {
        assert(results@.skip(i as int + 1) =~= results@.skip(i as int).drop_first());
        match results[i] {
            Resolved::V4(p) => {
                return Some(p);
            },
            Resolved::V6 => {},
        }
        i = i + 1;
    }
    None
}

/// What the first IPv4 result is: the sequence holds it at some position, and
/// nothing before that position is IPv4; there is none exactly when no result
/// is IPv4 (an empty sequence among them).
pub proof fn first_ipv4_is_first(s: Seq<Resolved>)
    ensures
        first_ipv4(s) is None <==> (forall|i: int| 0 <= i < s.len() ==> s[i] is V6),
        first_ipv4(s) matches Some(p) ==> exists|k: int|
            0 <= k < s.len() && s[k] == Resolved::V4(p) && (forall|j: int| 0 <= j < k ==> s[j] is V6),
    decreases s.len(),
{
    if s.len() > 0 {
        first_ipv4_is_first(s.drop_first());
        let t = s.drop_first();
        if s[0] is V6 {
            if first_ipv4(s) is None {
                assert forall|i: int| 0 <= i < s.len() implies s[i] is V6 by {
                    if i > 0 {
                        assert(s[i] == t[i - 1]);
                    }
                }
            } else {
                assert(exists|i: int| 0 <= i < t.len() && !(t[i] is V6));
                let i = choose|i: int| 0 <= i < t.len() && !(t[i] is V6);
                assert(s[i + 1] == t[i]);
                let p = first_ipv4(s)->Some_0;
                let k = choose|k: int|
                    0 <= k < t.len() && t[k] == Resolved::V4(p) && (forall|j: int| 0 <= j < k ==> t[j] is V6);
                assert(s[k + 1] == t[k]);
                assert forall|j: int| 0 <= j < k + 1 implies s[j] is V6 by {
                    if j > 0 {
                        assert(s[j] == t[j - 1]);
                    }
                }
            }
        } else {
            assert(!(s[0] is V6));
            assert forall|j: int| 0 <= j < 0 implies s[j] is V6 by {}
        }
    }
}

/// The decimal digits of a byte, without leading zeros.
pub open spec fn decimal_u8(n: u8) -> Seq<char> {
    if n >= 100 {
        seq![(48 + n / 100) as char, (48 + (n / 10) % 10) as char, (48 + n % 10) as char]
    } else if n >= 10 {
        seq![(48 + n / 10) as char, (48 + n % 10) as char]
    } else {
        seq![(48 + n) as char]
    }
}

/// The dotted-decimal form of four octets.
pub open spec fn dotted(o: Seq<u8>) -> Seq<char>
    recommends
        o.len() == 4,
{
    decimal_u8(o[0]) + seq!['.'] + decimal_u8(o[1]) + seq!['.'] + decimal_u8(o[2]) + seq!['.']
        + decimal_u8(o[3])
}

fn push_decimal(s: &mut String, n: u8)
    ensures
        final(s)@ == old(s)@ + decimal_u8(n),
{
    if n >= 100 {
        push_char(s, (48 + n / 100) as char);
    }
    if n >= 10 {
        push_char(s, (48 + (n / 10) % 10) as char);
    }
    push_char(s, (48 + n % 10) as char);
    assert(final(s)@ =~= old(s)@ + decimal_u8(n));
}

/// The IPv4 address in dotted-decimal form.
pub fn dotted_decimal(octets: &[u8; 4]) -> (r: String)
    ensures
        r@ == dotted(octets@),
{
    let mut s = String::new();
    push_decimal(&mut s, octets[0]);
    push_char(&mut s, '.');
    push_decimal(&mut s, octets[1]);
    push_char(&mut s, '.');
    push_decimal(&mut s, octets[2]);
    push_char(&mut s, '.');
    push_decimal(&mut s, octets[3]);
    assert(s@ =~= dotted(octets@));
    s
}

impl PeerAddress {
    /// The wire form: the address in dotted decimal, the port widened.
    pub fn to_wire(&self) -> (r: WireAddress)
        ensures
            r.ip@ == dotted(self.octets@),
            r.port == self.port as u32,
    {
        WireAddress { ip: dotted_decimal(&self.octets), port: self.port as u32 }
    }
}

} // verus!
