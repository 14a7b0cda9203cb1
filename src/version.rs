use vstd::prelude::*;
use crate::bump_type::BumpType;

verus! {

/// The decimal digit character of `d`, for `d < 10`.
pub open spec fn digit_char(d: nat) -> char {
    if d == 0 { '0' } else if d == 1 { '1' } else if d == 2 { '2' } else if d == 3 { '3' }
    else if d == 4 { '4' } else if d == 5 { '5' } else if d == 6 { '6' } else if d == 7 { '7' }
    else if d == 8 { '8' } else { '9' }
}

/// The decimal representation of `n`, without leading zeros.
pub open spec fn decimal(n: nat) -> Seq<char>
    decreases n,
{
    if n < 10 {
        seq![digit_char(n)]
    } else {
        decimal(n / 10).push(digit_char(n % 10))
    }
}

/// The text `major.minor.patch`.
pub open spec fn version_text(major: nat, minor: nat, patch: nat) -> Seq<char> {
    decimal(major) + seq!['.'] + decimal(minor) + seq!['.'] + decimal(patch)
}

/// Whether `s` holds no `.`.
pub open spec fn dot_free(s: Seq<char>) -> bool {
    forall|i: int| 0 <= i < s.len() ==> s[i] != '.'
}

pub proof fn lemma_decimal_shape(n: nat)
    ensures
        decimal(n).len() >= 1,
        n >= 10 ==> decimal(n).len() >= 2,
        dot_free(decimal(n)),
    decreases n,
{
    if n >= 10 {
        lemma_decimal_shape(n / 10);
    }
}

proof fn lemma_digit_injective(d: nat, e: nat)
    requires
        d < 10,
        e < 10,
        digit_char(d) == digit_char(e),
    ensures
        d == e,
{
}

pub proof fn lemma_decimal_injective(n: nat, m: nat)
    requires
        decimal(n) == decimal(m),
    ensures
        n == m,
    decreases n,
{
    lemma_decimal_shape(n);
    lemma_decimal_shape(m);
    if n >= 10 && m >= 10 {
        assert(decimal(n).drop_last() =~= decimal(n / 10));
        assert(decimal(m).drop_last() =~= decimal(m / 10));
        lemma_decimal_injective(n / 10, m / 10);
        assert(decimal(n) == decimal(n / 10).push(digit_char(n % 10)));
        assert(decimal(m) == decimal(m / 10).push(digit_char(m % 10)));
        assert(decimal(n).last() == digit_char(n % 10));
        assert(decimal(m).last() == digit_char(m % 10));
        lemma_digit_injective(n % 10, m % 10);
        assert(n == 10 * (n / 10) + n % 10);
        assert(m == 10 * (m / 10) + m % 10);
    } else if n < 10 && m < 10 {
        assert(decimal(n) == seq![digit_char(n)]);
        assert(decimal(m) == seq![digit_char(m)]);
        assert(decimal(n)[0] == digit_char(n));
        assert(decimal(m)[0] == digit_char(m));
        lemma_digit_injective(n, m);
    } else {
        assert(decimal(n).len() != decimal(m).len());
    }
}

proof fn lemma_split_at_dot(d1: Seq<char>, r1: Seq<char>, d2: Seq<char>, r2: Seq<char>)
    requires
        dot_free(d1),
        dot_free(d2),
        d1 + seq!['.'] + r1 == d2 + seq!['.'] + r2,
    ensures
        d1 == d2,
        r1 == r2,
{
    let t = d1 + seq!['.'] + r1;
    if d1.len() < d2.len() {
        assert(t[d1.len() as int] == '.');
        assert((d2 + seq!['.'] + r2)[d1.len() as int] == d2[d1.len() as int]);
    } else if d2.len() < d1.len() {
        assert((d2 + seq!['.'] + r2)[d2.len() as int] == '.');
        assert(t[d2.len() as int] == d1[d2.len() as int]);
    }
    assert(d1 =~= t.take(d1.len() as int));
    assert(d2 =~= (d2 + seq!['.'] + r2).take(d2.len() as int));
    assert(r1 =~= t.skip(d1.len() as int + 1));
    assert(r2 =~= (d2 + seq!['.'] + r2).skip(d2.len() as int + 1));
}

/// Distinct versions have distinct texts.
pub proof fn lemma_version_text_injective(a: nat, b: nat, c: nat, x: nat, y: nat, z: nat)
    requires
        version_text(a, b, c) == version_text(x, y, z),
    ensures
        a == x && b == y && c == z,
{
    lemma_decimal_shape(a);
    lemma_decimal_shape(b);
    lemma_decimal_shape(x);
    lemma_decimal_shape(y);
    let r1 = decimal(b) + seq!['.'] + decimal(c);
    let r2 = decimal(y) + seq!['.'] + decimal(z);
    assert(version_text(a, b, c) =~= decimal(a) + seq!['.'] + r1);
    assert(version_text(x, y, z) =~= decimal(x) + seq!['.'] + r2);
    lemma_split_at_dot(decimal(a), r1, decimal(x), r2);
    lemma_split_at_dot(decimal(b), decimal(c), decimal(y), decimal(z));
    lemma_decimal_injective(a, x);
    lemma_decimal_injective(b, y);
    lemma_decimal_injective(c, z);
}

/// A release version: three counters ordered lexicographically.
#[derive(Debug, Clone, Copy, PartialEq, Eq, Structural)]
pub struct Version {
    pub major: u64,
    pub minor: u64,
    pub patch: u64,
}

/// Why no version could be computed.
#[derive(Debug, Clone, Copy, PartialEq, Eq, Structural)]
pub enum VersionError {
    /// The counter to raise is already at its largest value.
    Overflow,
    /// The configured initial version is not `major.minor.patch`.
    InvalidInitialVersion,
}

impl Version {
    /// Whether raising by `b` stays within the counters' range.
    pub open spec fn can_bump(self, b: BumpType) -> bool {
        match b {
            BumpType::Major => self.major < u64::MAX,
            BumpType::Minor => self.minor < u64::MAX,
            BumpType::Patch => self.patch < u64::MAX,
            BumpType::NoBump => true,
        }
    }

    /// The version after a bump of kind `b`: the raised counter goes up by one and
    /// the ones below it start again at zero.
    pub open spec fn bumped(self, b: BumpType) -> Version {
        match b {
            BumpType::Major => Version { major: (self.major + 1) as u64, minor: 0, patch: 0 },
            BumpType::Minor => Version { major: self.major, minor: (self.minor + 1) as u64, patch: 0 },
            BumpType::Patch => Version { major: self.major, minor: self.minor, patch: (self.patch + 1) as u64 },
            BumpType::NoBump => self,
        }
    }

    pub open spec fn text(self) -> Seq<char> {
        version_text(self.major as nat, self.minor as nat, self.patch as nat)
    }

    /// Lexicographic order on (major, minor, patch).
    pub open spec fn le(self, o: Version) -> bool {
        ||| self.major < o.major
        ||| (self.major == o.major && self.minor < o.minor)
        ||| (self.major == o.major && self.minor == o.minor && self.patch <= o.patch)
    }

    pub fn new(major: u64, minor: u64, patch: u64) -> (r: Version)
        ensures
            r == (Version { major, minor, patch }),
    {
        Version { major, minor, patch }
    }

    /// Whether `self` orders at or below `other`.
    pub fn is_at_most(&self, other: &Version) -> (r: bool)
        ensures
            r == self.le(*other),
    {
        self.major < other.major || (self.major == other.major && (self.minor < other.minor || (
        self.minor == other.minor && self.patch <= other.patch)))
    }

    /// The text `major.minor.patch`.
    pub fn to_string(&self) -> (r: String)
        ensures
            r@ == self.text(),
    {
        render_version(self.major, self.minor, self.patch)
    }
}

/// The version after a bump of kind `bump`; `NoBump` leaves it as it is.
pub fn next_version(current: &Version, bump: &BumpType) -> (r: Result<Version, VersionError>)
    ensures
        current.can_bump(*bump) ==> r == Ok::<Version, VersionError>(current.bumped(*bump)),
        !current.can_bump(*bump) ==> r == Err::<Version, VersionError>(VersionError::Overflow),
        r is Ok ==> current.le(r->Ok_0),
{
    match bump {
        BumpType::Major => {
            if current.major == u64::MAX {
                return Err(VersionError::Overflow);
            }
            Ok(Version { major: current.major + 1, minor: 0, patch: 0 })
        },
        BumpType::Minor => {
            if current.minor == u64::MAX {
                return Err(VersionError::Overflow);
            }
            Ok(Version { major: current.major, minor: current.minor + 1, patch: 0 })
        },
        BumpType::Patch => {
            if current.patch == u64::MAX {
                return Err(VersionError::Overflow);
            }
            Ok(Version { major: current.major, minor: current.minor, patch: current.patch + 1 })
        },
        BumpType::NoBump => Ok(*current),
    }
}

/// semver's parse error, carried as an opaque value.
#[verifier::external_type_specification]
#[verifier::external_body]
pub struct ExSemverError(semver::Error);

/// Relies on semver's `Version::new` and its `Display`, which writes
/// `major.minor.patch` in decimal when there is no pre-release or build part.
#[verifier::external_body]
fn render_version(major: u64, minor: u64, patch: u64) -> (r: String)
    ensures
        r@ == version_text(major as nat, minor as nat, patch as nat),
{
    semver::Version::new(major, minor, patch).to_string()
}

/// Relies on semver's `Version::parse`, handing out the three counters and the
/// pre-release and build parts as text. It succeeds with both parts empty exactly
/// on the text `major.minor.patch` with decimal counters that fit in `u64` and
/// have no leading zeros.
#[verifier::external_body]
pub(crate) fn parse_semver(text: &str) -> (r: Result<(u64, u64, u64, String, String), semver::Error>)
    ensures
        r is Ok && r->Ok_0.3@.len() == 0 && r->Ok_0.4@.len() == 0 ==> text@ == version_text(
            r->Ok_0.0 as nat,
            r->Ok_0.1 as nat,
            r->Ok_0.2 as nat,
        ),
        forall|a: u64, b: u64, c: u64| #[trigger]
            version_text(a as nat, b as nat, c as nat) == text@ ==> r is Ok && r->Ok_0.0 == a
                && r->Ok_0.1 == b && r->Ok_0.2 == c && r->Ok_0.3@.len() == 0 && r->Ok_0.4@.len()
                == 0,
{
    match semver::Version::parse(text) {
        Ok(v) => Ok((v.major, v.minor, v.patch, v.pre.as_str().to_string(), v.build.as_str().to_string())),
        Err(e) => Err(e),
    }
}

} // verus!
