use vstd::prelude::*;

verus! {

/// The transport that an engine relays.
#[derive(Clone, Copy, Debug, PartialEq, Eq, Structural)]
pub enum Protocol {
    Tcp,
    Udp,
}

/// The protocol's name as shown in a status line.
pub open spec fn protocol_label(p: Protocol) -> Seq<char> {
    match p {
        Protocol::Tcp => "TCP"@,
        Protocol::Udp => "UDP"@,
    }
}

/// The status line of an engine: `<src> -> <dst> (<PROTOCOL>)`.
pub open spec fn status_line(src: Seq<char>, dst: Seq<char>, p: Protocol) -> Seq<char> {
    src + " -> "@ + dst + " ("@ + protocol_label(p) + ")"@
}

impl Protocol {
    /// The protocol's name: `TCP` or `UDP`.
    pub fn label(&self) -> (r: &'static str)
        ensures
            r@ == protocol_label(*self),
    {
        match self {
            Protocol::Tcp => "TCP",
            Protocol::Udp => "UDP",
        }
    }
}

/// Builds the status line for a relay from `src` to `dst` over `p`.
pub fn format_status(src: &str, dst: &str, p: Protocol) -> (r: String)
    ensures
        r@ == status_line(src@, dst@, p),
{
    let mut s = String::from_str(src);
    s.append(" -> ");
    s.append(dst);
    s.append(" (");
    s.append(p.label());
    s.append(")");
    s
}

} // verus!
