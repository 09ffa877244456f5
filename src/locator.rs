use vstd::prelude::*;

verus! {

/// Baud rate at which the track's controller talks.
pub const BAUD_RATE: u32 = 115200;
/// How long a read on the device may block, in seconds.
pub const READ_TIMEOUT_SECS: u64 = 20;
/// How long to wait before looking for the device again, in seconds.
pub const RECONNECT_DELAY_SECS: u64 = 10;

/// A serial interface as the host lists it.
#[derive(Clone, Debug, PartialEq, Eq)]
pub struct PortInfo {
    pub name: String,
    /// The USB manufacturer string, for a USB port that reports one.
    pub usb_manufacturer: Option<String>,
}

/// `needle` occurs in `hay` as a run of consecutive characters.
pub open spec fn contains_spec(hay: Seq<char>, needle: Seq<char>) -> bool {
    exists|i: int| 0 <= i && i + needle.len() <= hay.len() && #[trigger] hay.subrange(i, i + needle.len()) == needle
}

/// Relies on `str::contains` with a `&str` pattern: true exactly when the
/// pattern occurs in the string.
#[verifier::external_body]
fn str_contains(hay: &str, needle: &str) -> (r: bool)
    ensures
        r == contains_spec(hay@, needle@),
{
    hay.contains(needle)
}

/// The port is a USB port whose manufacturer string holds `tag`.
pub open spec fn port_matches(p: PortInfo, tag: Seq<char>) -> bool {
    match p.usb_manufacturer {
        Some(m) => contains_spec(m@, tag),
        None => false,
    }
}

/// Index of the first port whose USB manufacturer string holds `tag`, or
/// `None` when no port does.
pub fn select_port(ports: &Vec<PortInfo>, tag: &str) -> (r: Option<usize>)
    ensures
        match r {
            Some(i) => i < ports@.len() && port_matches(ports@[i as int], tag@)
                && forall|j: int| 0 <= j < i ==> !port_matches(#[trigger] ports@[j], tag@),
            None => forall|j: int| 0 <= j < ports@.len() ==> !port_matches(#[trigger] ports@[j], tag@),
        },
{
    let mut i: usize = 0;
    while i < ports.len()
        invariant
            i <= ports@.len(),
            forall|j: int| 0 <= j < i ==> !port_matches(#[trigger] ports@[j], tag@),
        decreases ports@.len() - i,
    {
        let found = match &ports[i].usb_manufacturer {
            Some(m) => str_contains(m.as_str(), tag),
            None => false,
        };
        if found {
            return Some(i);
        }
        i += 1;
    }
    None
}

/// What the track device's USB manufacturer string contains.
pub fn vendor_tag() -> (r: &'static str)
    ensures
        r@ == "Arduino"@,
{
    "Arduino"
}

/// Index of the first port that belongs to the track device, or `None` when
/// no port does.
pub fn find_device(ports: &Vec<PortInfo>) -> (r: Option<usize>)
    ensures
        match r {
            Some(i) => i < ports@.len() && port_matches(ports@[i as int], "Arduino"@)
                && forall|j: int| 0 <= j < i ==> !port_matches(#[trigger] ports@[j], "Arduino"@),
            None => forall|j: int| 0 <= j < ports@.len() ==> !port_matches(#[trigger] ports@[j], "Arduino"@),
        },
{
    select_port(ports, vendor_tag())
}

} // verus!
