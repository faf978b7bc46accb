use vstd::prelude::*;

use crate::text::all_digits;
use crate::text::chars_of;
use crate::text::dec_val;
use crate::text::fields_of;
use crate::text::keep_nonempty;
use crate::text::parse_dec_le;
use crate::text::split_at_sep;
use crate::text::split_chars;

verus! {

/// Who opens the transport connection for a session: in active mode this
/// speaker initiates it, in passive mode this speaker waits for the peer.
#[derive(Clone, Copy, Debug, PartialEq, Eq, Structural)]
pub enum Mode {
    Active,
    Passive,
}

/// An IPv4 address held as its four dotted-quad octets, most significant
/// first. Addresses pass through this core untouched: it stores and compares
/// them, the transport collaborator dials them.
#[derive(Clone, Copy, Debug, PartialEq, Eq, Hash, Structural)]
pub struct IpV4Addr {
    pub o0: u8,
    pub o1: u8,
    pub o2: u8,
    pub o3: u8,
}

/// The immutable description of one peering relationship, parsed once at
/// peer construction and never mutated; a session with other parameters
/// requires a new peer.
#[derive(Clone, Copy, Debug, PartialEq, Eq, Structural)]
pub struct Config {
    pub local_as: u16,
    pub local_addr: IpV4Addr,
    pub peer_as: u16,
    pub peer_addr: IpV4Addr,
    pub mode: Mode,
}

/// Why a configuration line was rejected, by the first field at fault read
/// left to right: wrong number of fields, a non-numeric or out-of-range
/// autonomous system number, a malformed address, or a mode other than
/// `active`/`passive`.
#[derive(Clone, Copy, Debug, PartialEq, Eq, Structural)]
pub enum ConfigError {
    FieldCount,
    AsNumber,
    Address,
    SessionMode,
}

/// A well-formed autonomous system number field: one or more decimal
/// digits reading to at most 65535.
pub open spec fn valid_as_field(t: Seq<char>) -> bool {
    t.len() >= 1 && all_digits(t) && dec_val(t) <= 65535
}

/// A well-formed dotted-quad octet: one or more decimal digits reading to
/// at most 255.
pub open spec fn valid_octet(p: Seq<char>) -> bool {
    p.len() >= 1 && all_digits(p) && dec_val(p) <= 255
}

/// A well-formed IPv4 address field: exactly four well-formed octets
/// separated by dots.
pub open spec fn valid_ipv4(t: Seq<char>) -> bool {
    let ps = split_at_sep(t, '.');
    &&& ps.len() == 4
    &&& valid_octet(ps[0])
    &&& valid_octet(ps[1])
    &&& valid_octet(ps[2])
    &&& valid_octet(ps[3])
}

/// The address a well-formed IPv4 field reads to.
pub open spec fn ipv4_val(t: Seq<char>) -> IpV4Addr {
    let ps = split_at_sep(t, '.');
    IpV4Addr {
        o0: dec_val(ps[0]) as u8,
        o1: dec_val(ps[1]) as u8,
        o2: dec_val(ps[2]) as u8,
        o3: dec_val(ps[3]) as u8,
    }
}

/// The characters of the mode token `active`.
pub open spec fn active_chars() -> Seq<char> {
    seq!['a', 'c', 't', 'i', 'v', 'e']
}

/// The characters of the mode token `passive`.
pub open spec fn passive_chars() -> Seq<char> {
    seq!['p', 'a', 's', 's', 'i', 'v', 'e']
}

/// A well-formed mode field: exactly `active` or `passive`.
pub open spec fn valid_mode(t: Seq<char>) -> bool {
    t == active_chars() || t == passive_chars()
}

/// The mode a well-formed mode field reads to.
pub open spec fn mode_val(t: Seq<char>) -> Mode {
    if t == active_chars() {
        Mode::Active
    } else {
        Mode::Passive
    }
}

/// What parsing a configuration line yields: the five whitespace-separated
/// fields `<local-AS> <local-address> <peer-AS> <peer-address> <mode>`
/// read in order, or the error of the first fault found, field count
/// first, then fields left to right.
pub open spec fn spec_parse(s: Seq<char>) -> Result<Config, ConfigError> {
    let fs = fields_of(s);
    if fs.len() != 5 {
        Err(ConfigError::FieldCount)
    } else if !valid_as_field(fs[0]) {
        Err(ConfigError::AsNumber)
    } else if !valid_ipv4(fs[1]) {
        Err(ConfigError::Address)
    } else if !valid_as_field(fs[2]) {
        Err(ConfigError::AsNumber)
    } else if !valid_ipv4(fs[3]) {
        Err(ConfigError::Address)
    } else if !valid_mode(fs[4]) {
        Err(ConfigError::SessionMode)
    } else {
        Ok(
            Config {
                local_as: dec_val(fs[0]) as u16,
                local_addr: ipv4_val(fs[1]),
                peer_as: dec_val(fs[2]) as u16,
                peer_addr: ipv4_val(fs[3]),
                mode: mode_val(fs[4]),
            },
        )
    }
}

/// Reads one autonomous system number field.
fn parse_as_field(t: &Vec<char>) -> (r: Option<u16>)
    ensures
        r is Some <==> valid_as_field(t@),
        r matches Some(v) ==> v == dec_val(t@),
{
    parse_dec_le(t, 65535)
}

/// Reads one dotted-quad IPv4 address field.
fn parse_ipv4_field(t: &Vec<char>) -> (r: Option<IpV4Addr>)
    ensures
        r is Some <==> valid_ipv4(t@),
        r matches Some(a) ==> a == ipv4_val(t@),
{
    let ps = split_chars(t, '.');
    proof {
        assert(ps@.map_values(|p: Vec<char>| p@).len() == ps@.len());
    }
    if ps.len() != 4 {
        return None;
    }
    proof {
        assert(ps@[0]@ == split_at_sep(t@, '.')[0]);
        assert(ps@[1]@ == split_at_sep(t@, '.')[1]);
        assert(ps@[2]@ == split_at_sep(t@, '.')[2]);
        assert(ps@[3]@ == split_at_sep(t@, '.')[3]);
    }
    let o0 = match parse_dec_le(&ps[0], 255) {
        Some(v) => v,
        None => return None,
    };
    let o1 = match parse_dec_le(&ps[1], 255) {
        Some(v) => v,
        None => return None,
    };
    let o2 = match parse_dec_le(&ps[2], 255) {
        Some(v) => v,
        None => return None,
    };
    let o3 = match parse_dec_le(&ps[3], 255) {
        Some(v) => v,
        None => return None,
    };
    Some(IpV4Addr { o0: o0 as u8, o1: o1 as u8, o2: o2 as u8, o3: o3 as u8 })
}

/// Reads one mode field.
fn parse_mode_field(t: &Vec<char>) -> (r: Option<Mode>)
    ensures
        r is Some <==> valid_mode(t@),
        r matches Some(m) ==> m == mode_val(t@),
{
    if t.len() == 6 {
        if t[0] == 'a' && t[1] == 'c' && t[2] == 't' && t[3] == 'i' && t[4] == 'v' && t[5]
            == 'e' {
            proof {
                assert(t@ =~= active_chars());
            }
            return Some(Mode::Active);
        }
        proof {
            assert(t@ != active_chars());
            assert(t@ != passive_chars());
        }
        return None;
    }
    if t.len() == 7 {
        if t[0] == 'p' && t[1] == 'a' && t[2] == 's' && t[3] == 's' && t[4] == 'i' && t[5]
            == 'v' && t[6] == 'e' {
            proof {
                assert(t@ =~= passive_chars());
                assert(t@ != active_chars());
            }
            return Some(Mode::Passive);
        }
        proof {
            assert(t@ != active_chars());
            assert(t@ != passive_chars());
        }
        return None;
    }
    proof {
        assert(t@ != active_chars());
        assert(t@ != passive_chars());
    }
    None
}

impl Config {
    /// Reads a configuration line of five whitespace-separated fields,
    /// `<local-AS> <local-address> <peer-AS> <peer-address> <mode>`, and
    /// rejects it with the error of the first fault found: a field count
    /// other than five, a non-numeric or out-of-range AS number, a
    /// malformed address, or a mode other than `active`/`passive`.
    pub fn parse(s: &str) -> (r: Result<Config, ConfigError>)
        ensures
            r == spec_parse(s@),
    {
        let chars = chars_of(s);
        let pieces = split_chars(&chars, ' ');
        let fields = keep_nonempty(pieces);
        let ghost fs = fields_of(s@);
        proof {
            assert(fields@.map_values(|p: Vec<char>| p@) == fs);
            assert(fields@.map_values(|p: Vec<char>| p@).len() == fields@.len());
        }
        if fields.len() != 5 {
            return Err(ConfigError::FieldCount);
        }
        proof {
            assert(fields@[0]@ == fs[0]);
            assert(fields@[1]@ == fs[1]);
            assert(fields@[2]@ == fs[2]);
            assert(fields@[3]@ == fs[3]);
            assert(fields@[4]@ == fs[4]);
        }
        let local_as = match parse_as_field(&fields[0]) {
            Some(v) => v,
            None => return Err(ConfigError::AsNumber),
        };
        let local_addr = match parse_ipv4_field(&fields[1]) {
            Some(a) => a,
            None => return Err(ConfigError::Address),
        };
        let peer_as = match parse_as_field(&fields[2]) {
            Some(v) => v,
            None => return Err(ConfigError::AsNumber),
        };
        let peer_addr = match parse_ipv4_field(&fields[3]) {
            Some(a) => a,
            None => return Err(ConfigError::Address),
        };
        let mode = match parse_mode_field(&fields[4]) {
            Some(m) => m,
            None => return Err(ConfigError::SessionMode),
        };
        Ok(
            Config {
                local_as: local_as,
                local_addr: local_addr,
                peer_as: peer_as,
                peer_addr: peer_addr,
                mode: mode,
            },
        )
    }
}

impl core::str::FromStr for Config {
    type Err = ConfigError;

    fn from_str(s: &str) -> Result<Config, ConfigError> {
        Config::parse(s)
    }
}

} // verus!
