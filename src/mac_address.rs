use vstd::prelude::*;

verus! {

/// A six-byte Bluetooth hardware address, most significant byte first.
#[derive(Clone, Copy, Debug, PartialEq, Eq, Structural, Hash, PartialOrd, Ord)]
pub struct MacAddress(pub u8, pub u8, pub u8, pub u8, pub u8, pub u8);

impl View for MacAddress {
    type V = Seq<u8>;

    open spec fn view(&self) -> Seq<u8> {
        seq![self.0, self.1, self.2, self.3, self.4, self.5]
    }
}

/// The address read as a 48-bit number, most significant byte first: the
/// order of addresses.
pub open spec fn mac_key(m: MacAddress) -> nat {
    ((((m.0 as nat * 256 + m.1 as nat) * 256 + m.2 as nat) * 256 + m.3 as nat) * 256 + m.4 as nat) * 256
        + m.5 as nat
}

/// The hexadecimal digit of `n`, in capitals where `upper`.
pub open spec fn hex_digit(n: u8, upper: bool) -> char {
    if n < 10 {
        (n + 48) as char
    } else if upper {
        (n + 55) as char
    } else {
        (n + 87) as char
    }
}

/// The two hexadecimal digits of `b`.
pub open spec fn octet_text(b: u8, upper: bool) -> Seq<char> {
    seq![hex_digit(b / 16, upper), hex_digit(b % 16, upper)]
}

/// The address as six pairs of hexadecimal digits separated by colons.
pub open spec fn mac_text(m: MacAddress, upper: bool) -> Seq<char> {
    octet_text(m.0, upper) + seq![':'] + octet_text(m.1, upper) + seq![':'] + octet_text(m.2, upper) + seq![':']
        + octet_text(m.3, upper) + seq![':'] + octet_text(m.4, upper) + seq![':'] + octet_text(m.5, upper)
}

/// Relies on `String::push`: appends `c`.
#[verifier::external_body]
fn push_char(s: &mut String, c: char)
    ensures
        final(s)@ == old(s)@.push(c),
{
    s.push(c)
}

fn hex_digit_of(n: u8, upper: bool) -> (r: char)
    requires
        n < 16,
    ensures
        r == hex_digit(n, upper),
{
    if n < 10 {
        (n + 48) as char
    } else if upper {
        (n + 55) as char
    } else {
        (n + 87) as char
    }
}

fn push_octet(s: &mut String, b: u8, upper: bool)
    ensures
        final(s)@ == old(s)@ + octet_text(b, upper),
{
    push_char(s, hex_digit_of(b / 16, upper));
    push_char(s, hex_digit_of(b % 16, upper));
    assert(s@ =~= old(s)@ + octet_text(b, upper));
}

impl MacAddress {
    /// The address as text, `AA:BB:CC:DD:EE:FF`, with capital digits where
    /// `upper` and small ones otherwise.
    pub fn to_hex(&self, upper: bool) -> (r: String)
        ensures
            r@ == mac_text(*self, upper),
    {
        let mut s = String::new();
        push_octet(&mut s, self.0, upper);
        push_char(&mut s, ':');
        push_octet(&mut s, self.1, upper);
        push_char(&mut s, ':');
        push_octet(&mut s, self.2, upper);
        push_char(&mut s, ':');
        push_octet(&mut s, self.3, upper);
        push_char(&mut s, ':');
        push_octet(&mut s, self.4, upper);
        push_char(&mut s, ':');
        push_octet(&mut s, self.5, upper);
        assert(s@ =~= mac_text(*self, upper));
        s
    }

    /// The address as text with capital digits, as it is shown.
    pub fn to_string(&self) -> (r: String)
        ensures
            r@ == mac_text(*self, true),
    {
        self.to_hex(true)
    }

    /// The address as a number; addresses compare as their keys do.
    pub fn key(&self) -> (r: u64)
        ensures
            r == mac_key(*self),
    {
        ((((self.0 as u64 * 256 + self.1 as u64) * 256 + self.2 as u64) * 256 + self.3 as u64) * 256
            + self.4 as u64) * 256 + self.5 as u64
    }

    pub fn from_octets(octets: [u8; 6]) -> (r: MacAddress)
        ensures
            r@ == octets@,
    {
        let r = MacAddress(octets[0], octets[1], octets[2], octets[3], octets[4], octets[5]);
        assert(r@ =~= octets@);
        r
    }

    pub fn octets(&self) -> (r: [u8; 6])
        ensures
            r@ == self@,
    {
        let r = [self.0, self.1, self.2, self.3, self.4, self.5];
        assert(r@ =~= self@);
        r
    }
}

impl From<[u8; 6]> for MacAddress {
    fn from(octets: [u8; 6]) -> (r: MacAddress) {
        MacAddress(octets[0], octets[1], octets[2], octets[3], octets[4], octets[5])
    }
}

impl vstd::std_specs::convert::FromSpecImpl<[u8; 6]> for MacAddress {
    open spec fn obeys_from_spec() -> bool {
        true
    }

    open spec fn from_spec(octets: [u8; 6]) -> MacAddress {
        MacAddress(octets@[0], octets@[1], octets@[2], octets@[3], octets@[4], octets@[5])
    }
}

} // verus!
