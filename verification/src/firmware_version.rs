//! Firmware versions, written on the wire as five ASCII bytes `MM.mm`.
use vstd::prelude::*;

verus! {

/// A firmware version `major.minor`, each part shown with two decimal digits.
#[derive(Clone, Copy, Debug, PartialEq, Eq)]
pub struct FirmwareVersion {
    pub major: u8,
    pub minor: u8,
}

/// The ASCII code of the digit `0`.
pub open spec fn ascii_zero() -> u8 {
    48
}

/// The ASCII code of `.`.
pub open spec fn ascii_dot() -> u8 {
    46
}

pub open spec fn is_ascii_digit(b: u8) -> bool {
    48 <= b <= 57
}

/// The value of an ASCII digit.
pub open spec fn digit_value(b: u8) -> int {
    b - 48
}

/// The two digit bytes of a part below 100; for a larger part the first
/// byte lies past `9`.
pub open spec fn two_digits(v: u8) -> Seq<u8> {
    seq![(48 + v / 10) as u8, (48 + v % 10) as u8]
}

impl FirmwareVersion {
    /// A version whose parts each fit in two decimal digits.
    pub open spec fn wf(self) -> bool {
        self.major < 100 && self.minor < 100
    }

    /// Whether five bytes read as a version: two digits, a dot, two digits.
    pub open spec fn valid_bytes(b: Seq<u8>) -> bool {
        &&& b.len() == 5
        &&& is_ascii_digit(b[0])
        &&& is_ascii_digit(b[1])
        &&& b[2] == ascii_dot()
        &&& is_ascii_digit(b[3])
        &&& is_ascii_digit(b[4])
    }

    /// The version that five valid bytes denote.
    pub open spec fn spec_parse(b: Seq<u8>) -> FirmwareVersion {
        FirmwareVersion {
            major: (digit_value(b[0]) * 10 + digit_value(b[1])) as u8,
            minor: (digit_value(b[3]) * 10 + digit_value(b[4])) as u8,
        }
    }

    /// The five bytes written for this version.
    pub open spec fn spec_bytes(self) -> Seq<u8> {
        two_digits(self.major) + seq![ascii_dot()] + two_digits(self.minor)
    }

    /// The text of the version, `MM.mm`.
    pub open spec fn spec_text(self) -> Seq<char> {
        decimal_two(self.major as nat) + seq!['.'] + decimal_two(self.minor as nat)
    }

    pub fn new(major: u8, minor: u8) -> (v: FirmwareVersion)
        ensures
            v.major == major,
            v.minor == minor,
    {
        FirmwareVersion { major, minor }
    }

    /// Reads a version from five bytes; `None` unless they are two digits,
    /// a dot and two digits.
    pub fn parse(b: &[u8]) -> (v: Option<FirmwareVersion>)
        requires
            b@.len() == 5,
        ensures
            v == (if Self::valid_bytes(b@) {
                Some(Self::spec_parse(b@))
            } else {
                None::<FirmwareVersion>
            }),
    {
        if 48 <= b[0] && b[0] <= 57 && 48 <= b[1] && b[1] <= 57 && b[2] == 46 && 48 <= b[3] && b[3]
            <= 57 && 48 <= b[4] && b[4] <= 57 {
            Some(
                FirmwareVersion {
                    major: (b[0] - 48) * 10 + (b[1] - 48),
                    minor: (b[3] - 48) * 10 + (b[4] - 48),
                },
            )
        } else {
            None
        }
    }

    /// The five bytes written for this version.
    pub fn bytes(&self) -> (out: [u8; 5])
        ensures
            out@ == self.spec_bytes(),
    {
        let out = [
            48 + self.major / 10,
            48 + self.major % 10,
            46,
            48 + self.minor / 10,
            48 + self.minor % 10,
        ];
        assert(out@ =~= self.spec_bytes());
        out
    }

    /// The text of the version: each part with at least two decimal digits,
    /// joined by a dot (`03.23`).
    pub fn to_string(&self) -> (s: String)
        ensures
            s@ == self.spec_text(),
    {
        let mut s = decimal_two_string(self.major);
        s.append(".");
        let minor = decimal_two_string(self.minor);
        s.append(minor.as_str());
        proof {
            reveal_strlit(".");
        }
        assert(s@ =~= self.spec_text());
        s
    }

    /// The text of a version whose parts are below 100 is five characters:
    /// the tens and units digit of the major part, a dot, and the tens and
    /// units digit of the minor part, digit `d` being the character with code
    /// `48 + d`.
    pub proof fn lemma_text_digits(self)
        requires
            self.wf(),
        ensures
            self.spec_text().len() == 5,
            self.spec_text()[0] == (48 + self.major / 10) as char,
            self.spec_text()[1] == (48 + self.major % 10) as char,
            self.spec_text()[2] == '.',
            self.spec_text()[3] == (48 + self.minor / 10) as char,
            self.spec_text()[4] == (48 + self.minor % 10) as char,
    {
    }

    /// Reading five valid bytes gives the major part from the first two
    /// digits and the minor part from the last two.
    pub proof fn lemma_parse_digits(b: Seq<u8>)
        requires
            Self::valid_bytes(b),
        ensures
            Self::spec_parse(b).major == (b[0] - 48) * 10 + (b[1] - 48),
            Self::spec_parse(b).minor == (b[3] - 48) * 10 + (b[4] - 48),
    {
    }

    /// Reading the bytes of a well-formed version gives it back.
    pub proof fn lemma_roundtrip(self)
        requires
            self.wf(),
        ensures
            Self::valid_bytes(self.spec_bytes()),
            Self::spec_parse(self.spec_bytes()) == self,
    {
        let b = self.spec_bytes();
        assert(b[0] == 48 + self.major / 10);
        assert(b[1] == 48 + self.major % 10);
        assert(b[3] == 48 + self.minor / 10);
        assert(b[4] == 48 + self.minor % 10);
    }

    /// A version read from valid bytes is well formed, and writing it gives
    /// the same bytes.
    pub proof fn lemma_parse_exact(b: Seq<u8>)
        requires
            Self::valid_bytes(b),
        ensures
            Self::spec_parse(b).wf(),
            Self::spec_parse(b).spec_bytes() == b,
    {
        let v = Self::spec_parse(b);
        let hi = digit_value(b[0]) * 10 + digit_value(b[1]);
        let lo = digit_value(b[3]) * 10 + digit_value(b[4]);
        assert(v.major / 10 == digit_value(b[0]) && v.major % 10 == digit_value(b[1])) by {
            assert(0 <= hi < 100);
        }
        assert(v.minor / 10 == digit_value(b[3]) && v.minor % 10 == digit_value(b[4])) by {
            assert(0 <= lo < 100);
        }
        assert(v.spec_bytes() =~= b);
    }
}

/// The firmware versions of both earbuds: ten bytes, left then right.
#[derive(Clone, Copy, Debug, PartialEq, Eq)]
pub struct DualFirmwareVersion {
    pub left: FirmwareVersion,
    pub right: FirmwareVersion,
}

impl DualFirmwareVersion {
    pub open spec fn wf(self) -> bool {
        self.left.wf() && self.right.wf()
    }

    pub open spec fn valid_bytes(b: Seq<u8>) -> bool {
        &&& b.len() == 10
        &&& FirmwareVersion::valid_bytes(b.subrange(0, 5))
        &&& FirmwareVersion::valid_bytes(b.subrange(5, 10))
    }

    pub open spec fn spec_parse(b: Seq<u8>) -> DualFirmwareVersion {
        DualFirmwareVersion {
            left: FirmwareVersion::spec_parse(b.subrange(0, 5)),
            right: FirmwareVersion::spec_parse(b.subrange(5, 10)),
        }
    }

    pub open spec fn spec_bytes(self) -> Seq<u8> {
        self.left.spec_bytes() + self.right.spec_bytes()
    }

    /// Reads both versions from ten bytes; `None` unless both are valid.
    pub fn parse(b: &[u8]) -> (v: Option<DualFirmwareVersion>)
        requires
            b@.len() == 10,
        ensures
            v == (if Self::valid_bytes(b@) {
                Some(Self::spec_parse(b@))
            } else {
                None::<DualFirmwareVersion>
            }),
    {
        let left = FirmwareVersion::parse(vstd::slice::slice_subrange(b, 0, 5));
        let right = FirmwareVersion::parse(vstd::slice::slice_subrange(b, 5, 10));
        match (left, right) {
            (Some(left), Some(right)) => Some(DualFirmwareVersion { left, right }),
            _ => None,
        }
    }

    pub fn bytes(&self) -> (out: [u8; 10])
        ensures
            out@ == self.spec_bytes(),
    {
        let l = self.left.bytes();
        let r = self.right.bytes();
        let out = [l[0], l[1], l[2], l[3], l[4], r[0], r[1], r[2], r[3], r[4]];
        assert(out@ =~= self.spec_bytes());
        out
    }


    /// The left earbud's version is the first five bytes and the right's the
    /// last five, both when reading and when writing.
    pub proof fn lemma_left_first(self, b: Seq<u8>)
        requires
            Self::valid_bytes(b),
        ensures
            Self::spec_parse(b).left.major == (b[0] - 48) * 10 + (b[1] - 48),
            Self::spec_parse(b).left.minor == (b[3] - 48) * 10 + (b[4] - 48),
            Self::spec_parse(b).right.major == (b[5] - 48) * 10 + (b[6] - 48),
            Self::spec_parse(b).right.minor == (b[8] - 48) * 10 + (b[9] - 48),
            self.spec_bytes()[0] == 48 + self.left.major / 10,
            self.spec_bytes()[1] == 48 + self.left.major % 10,
            self.spec_bytes()[3] == 48 + self.left.minor / 10,
            self.spec_bytes()[4] == 48 + self.left.minor % 10,
            self.spec_bytes()[5] == 48 + self.right.major / 10,
            self.spec_bytes()[6] == 48 + self.right.major % 10,
            self.spec_bytes()[8] == 48 + self.right.minor / 10,
            self.spec_bytes()[9] == 48 + self.right.minor % 10,
    {
        assert(b.subrange(0, 5)[0] == b[0] && b.subrange(0, 5)[1] == b[1]);
        assert(b.subrange(0, 5)[3] == b[3] && b.subrange(0, 5)[4] == b[4]);
        assert(b.subrange(5, 10)[0] == b[5] && b.subrange(5, 10)[1] == b[6]);
        assert(b.subrange(5, 10)[3] == b[8] && b.subrange(5, 10)[4] == b[9]);
    }

    pub proof fn lemma_roundtrip(self)
        requires
            self.wf(),
        ensures
            Self::valid_bytes(self.spec_bytes()),
            Self::spec_parse(self.spec_bytes()) == self,
    {
        self.left.lemma_roundtrip();
        self.right.lemma_roundtrip();
        assert(self.spec_bytes().subrange(0, 5) =~= self.left.spec_bytes());
        assert(self.spec_bytes().subrange(5, 10) =~= self.right.spec_bytes());
    }

    pub proof fn lemma_parse_exact(b: Seq<u8>)
        requires
            Self::valid_bytes(b),
        ensures
            Self::spec_parse(b).wf(),
            Self::spec_parse(b).spec_bytes() == b,
    {
        FirmwareVersion::lemma_parse_exact(b.subrange(0, 5));
        FirmwareVersion::lemma_parse_exact(b.subrange(5, 10));
        assert(Self::spec_parse(b).spec_bytes() =~= b);
    }
}

/// The charging case's firmware version: five bytes.
#[derive(Clone, Copy, Debug, PartialEq, Eq)]
pub struct CaseFirmwareVersion(pub FirmwareVersion);

/// The text of a part is its decimal digits, at least two of them: a part
/// below 100 is its tens and units digit, a larger part its hundreds, tens
/// and units digit, digit `d` being the character with code `48 + d`.
pub proof fn lemma_decimal_two_digits(v: u8)
    ensures
        v < 100 ==> decimal_two(v as nat) == seq![(48 + v / 10) as char, (48 + v % 10) as char],
        v >= 100 ==> decimal_two(v as nat) == seq![
            (48 + v / 100) as char,
            (48 + (v / 10) % 10) as char,
            (48 + v % 10) as char,
        ],
{
    if v >= 100 {
        assert(decimal_two((v / 10) as nat) =~= seq![
            (48 + v / 100) as char,
            (48 + (v / 10) % 10) as char,
        ]);
        assert(decimal_two(v as nat) =~= seq![
            (48 + v / 100) as char,
            (48 + (v / 10) % 10) as char,
            (48 + v % 10) as char,
        ]);
    } else {
        assert(decimal_two(v as nat) =~= seq![(48 + v / 10) as char, (48 + v % 10) as char]);
    }
}

/// The decimal digits of `v`, at least two of them (`{:02}`).
pub open spec fn decimal_two(v: nat) -> Seq<char>
    decreases v,
{
    if v < 100 {
        seq![digit_char((v / 10) as u8), digit_char((v % 10) as u8)]
    } else {
        decimal_two(v / 10) + seq![digit_char((v % 10) as u8)]
    }
}

/// The character of a decimal digit.
pub open spec fn digit_char(d: u8) -> char {
    (48 + d) as char
}

/// The one-character text of a decimal digit.
fn digit_str(d: u8) -> (s: &'static str)
    requires
        d < 10,
    ensures
        s@ == seq![digit_char(d)],
{
    proof {
        reveal_strlit("0");
        reveal_strlit("1");
        reveal_strlit("2");
        reveal_strlit("3");
        reveal_strlit("4");
        reveal_strlit("5");
        reveal_strlit("6");
        reveal_strlit("7");
        reveal_strlit("8");
        reveal_strlit("9");
    }
    match d {
        0 => "0",
        1 => "1",
        2 => "2",
        3 => "3",
        4 => "4",
        5 => "5",
        6 => "6",
        7 => "7",
        8 => "8",
        _ => "9",
    }
}

/// The text of `v` with at least two decimal digits.
fn decimal_two_string(v: u8) -> (s: String)
    ensures
        s@ == decimal_two(v as nat),
{
    if v < 100 {
        let mut s = String::from_str(digit_str(v / 10));
        s.append(digit_str(v % 10));
        assert(s@ =~= decimal_two(v as nat));
        s
    } else {
        let mut s = String::from_str(digit_str(v / 100));
        s.append(digit_str((v / 10) % 10));
        s.append(digit_str(v % 10));
        assert(decimal_two((v / 10) as nat) == seq![
            digit_char((v / 100) as u8),
            digit_char(((v / 10) % 10) as u8),
        ]);
        assert(s@ =~= decimal_two(v as nat));
        s
    }
}

} // verus!
