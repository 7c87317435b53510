//! The address of the peer that asks for the page, as the page shows it.

use vstd::prelude::*;

verus! {

/// The IP address of a peer, by its octets in network order.
///
/// For an IPv6 peer `text` is the address as it is written in text; it is
/// shown on the page as it stands.
#[derive(Debug, Clone, PartialEq, Eq)]
#[allow(inconsistent_fields)]
pub enum PeerIp {
    V4 { octets: [u8; 4] },
    V6 { octets: [u8; 16], text: String },
}

/// What a [`PeerIp`] stands for.
#[allow(inconsistent_fields)]
pub ghost enum PeerIpView {
    V4 { octets: Seq<u8> },
    V6 { octets: Seq<u8>, text: Seq<char> },
}

impl View for PeerIp {
    type V = PeerIpView;

    open spec fn view(&self) -> PeerIpView {
        match self {
            PeerIp::V4 { octets } => PeerIpView::V4 { octets: octets@ },
            PeerIp::V6 { octets, text } => PeerIpView::V6 { octets: octets@, text: text@ },
        }
    }
}

/// A peer address sorted into its family, with the text to show.
#[derive(Debug, Clone, PartialEq, Eq)]
pub enum RemoteAddr {
    V4(String),
    V6(String),
}

/// What a [`RemoteAddr`] stands for.
pub ghost enum RemoteAddrView {
    V4(Seq<char>),
    V6(Seq<char>),
}

impl View for RemoteAddr {
    type V = RemoteAddrView;

    open spec fn view(&self) -> RemoteAddrView {
        match self {
            RemoteAddr::V4(text) => RemoteAddrView::V4(text@),
            RemoteAddr::V6(text) => RemoteAddrView::V6(text@),
        }
    }
}

/// The character of a decimal digit.
pub open spec fn digit(d: nat) -> char {
    if d == 0 {
        '0'
    } else if d == 1 {
        '1'
    } else if d == 2 {
        '2'
    } else if d == 3 {
        '3'
    } else if d == 4 {
        '4'
    } else if d == 5 {
        '5'
    } else if d == 6 {
        '6'
    } else if d == 7 {
        '7'
    } else if d == 8 {
        '8'
    } else {
        '9'
    }
}

/// A number in decimal, without leading zeros.
pub open spec fn decimal(n: nat) -> Seq<char>
    decreases n,
{
    if n < 10 {
        seq![digit(n)]
    } else {
        decimal(n / 10).push(digit(n % 10))
    }
}

/// Four octets in dotted decimal.
pub open spec fn dotted(octets: Seq<u8>) -> Seq<char>
    recommends
        octets.len() == 4,
{
    decimal(octets[0] as nat) + seq!['.'] + decimal(octets[1] as nat) + seq!['.'] + decimal(
        octets[2] as nat,
    ) + seq!['.'] + decimal(octets[3] as nat)
}

/// Sixteen octets are an IPv4-mapped IPv6 address: ten zero octets, two
/// octets of all ones, then the four octets of the IPv4 address.
pub open spec fn is_mapped(octets: Seq<u8>) -> bool
    recommends
        octets.len() == 16,
{
    &&& forall|i: int| 0 <= i < 10 ==> octets[i] == 0
    &&& octets[10] == 255
    &&& octets[11] == 255
}

/// The IPv4 address inside an IPv4-mapped IPv6 address.
pub open spec fn embedded_v4(octets: Seq<u8>) -> Seq<u8>
    recommends
        octets.len() == 16,
{
    octets.subrange(12, 16)
}

/// The family and text under which a peer is shown.
pub open spec fn classify(peer: PeerIpView) -> RemoteAddrView {
    match peer {
        PeerIpView::V4 { octets } => RemoteAddrView::V4(dotted(octets)),
        PeerIpView::V6 { octets, text } => if is_mapped(octets) {
            RemoteAddrView::V4(dotted(embedded_v4(octets)))
        } else {
            RemoteAddrView::V6(text)
        },
    }
}

/// The text of a classified address: the family, then the address in brackets.
pub open spec fn display(addr: RemoteAddrView) -> Seq<char> {
    match addr {
        RemoteAddrView::V4(text) => "IPv4("@ + text + ")"@,
        RemoteAddrView::V6(text) => "IPv6("@ + text + ")"@,
    }
}

fn digit_str(d: u8) -> (s: &'static str)
    requires
        d < 10,
    ensures
        s@ == seq![digit(d as nat)],
{
    proof {
        reveal_strlit("0");
        reveal_strlit("1");
        reveal_strlit("2");
        reveal_strlit("3");
        reveal_strlit("4");
        reveal_strlit("5");
        reveal_strlit("6");
        reveal_strlit("7");
        reveal_strlit("8");
        reveal_strlit("9");
    }
    let s = if d == 0 {
        "0"
    } else if d == 1 {
        "1"
    } else if d == 2 {
        "2"
    } else if d == 3 {
        "3"
    } else if d == 4 {
        "4"
    } else if d == 5 {
        "5"
    } else if d == 6 {
        "6"
    } else if d == 7 {
        "7"
    } else if d == 8 {
        "8"
    } else {
        "9"
    };
    assert(s@ =~= seq![digit(d as nat)]);
    s
}

fn append_octet(out: &mut String, n: u8)
    ensures
        final(out)@ == old(out)@ + decimal(n as nat),
{
    reveal_with_fuel(decimal, 3);
    let ghost before = out@;
    if n >= 100 {
        out.append(digit_str(n / 100));
    }
    if n >= 10 {
        out.append(digit_str((n / 10) % 10));
    }
    out.append(digit_str(n % 10));
    assert(out@ =~= before + decimal(n as nat));
}

fn dotted_text(a: u8, b: u8, c: u8, d: u8) -> (out: String)
    ensures
        out@ == dotted(seq![a, b, c, d]),
{
    proof {
        reveal_strlit(".");
    }
    let mut out = String::new();
    append_octet(&mut out, a);
    out.append(".");
    append_octet(&mut out, b);
    out.append(".");
    append_octet(&mut out, c);
    out.append(".");
    append_octet(&mut out, d);
    assert(out@ =~= dotted(seq![a, b, c, d]));
    out
}

fn mapped(octets: &[u8; 16]) -> (yes: bool)
    ensures
        yes == is_mapped(octets@),
{
    let mut i: usize = 0;
    while i < 10
        invariant
            i <= 10,
            forall|j: int| 0 <= j < i ==> octets@[j] == 0,
        decreases 10 - i,
    {
        if octets[i] != 0 {
            return false;
        }
        i += 1;
    }
    octets[10] == 255 && octets[11] == 255
}

impl RemoteAddr {
    /// Sorts a peer address into its family. An IPv4-mapped IPv6 address
    /// counts as the IPv4 address inside it; any other IPv6 address keeps
    /// its text.
    pub fn from(peer: PeerIp) -> (addr: RemoteAddr)
        ensures
            addr@ == classify(peer@),
    {
        match peer {
            PeerIp::V4 { octets } => {
                assert(octets@ =~= seq![octets@[0], octets@[1], octets@[2], octets@[3]]);
                RemoteAddr::V4(dotted_text(octets[0], octets[1], octets[2], octets[3]))
            },
            PeerIp::V6 { octets, text } => {
                if mapped(&octets) {
                    assert(embedded_v4(octets@) =~= seq![
                        octets@[12],
                        octets@[13],
                        octets@[14],
                        octets@[15],
                    ]);
                    RemoteAddr::V4(dotted_text(octets[12], octets[13], octets[14], octets[15]))
                } else {
                    RemoteAddr::V6(text)
                }
            },
        }
    }

    /// The address as the page shows it: `IPv4(..)` or `IPv6(..)`.
    pub fn to_string(&self) -> (out: String)
        ensures
            out@ == display(self@),
    {
        match self {
            RemoteAddr::V4(text) => {
                let mut out = String::from_str("IPv4(");
                out.append(text.as_str());
                out.append(")");
                out
            },
            RemoteAddr::V6(text) => {
                let mut out = String::from_str("IPv6(");
                out.append(text.as_str());
                out.append(")");
                out
            },
        }
    }
}

/// An IPv4-mapped IPv6 peer is shown exactly as the IPv4 peer inside it.
pub proof fn lemma_mapped_classifies_as_v4(octets: Seq<u8>, text: Seq<char>)
    requires
        octets.len() == 16,
        is_mapped(octets),
    ensures
        classify(PeerIpView::V6 { octets, text }) == classify(
            PeerIpView::V4 { octets: embedded_v4(octets) },
        ),
{
}

/// An IPv6 peer that is not IPv4-mapped is shown as IPv6, with its text.
pub proof fn lemma_plain_v6_keeps_text(octets: Seq<u8>, text: Seq<char>)
    requires
        octets.len() == 16,
        !is_mapped(octets),
    ensures
        classify(PeerIpView::V6 { octets, text }) == RemoteAddrView::V6(text),
{
}

} // verus!
