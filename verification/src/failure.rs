//! Unrecoverable conditions, reported as values.
//!
//! Every invalid input, invalid configuration or algorithm failure is
//! described by a [`Failure`].  The host decides whether to keep the
//! instance alive; nothing here halts.

use vstd::prelude::*;

verus! {

/// An unrecoverable condition detected by one of the exported operations.
#[derive(Clone, Copy, Debug, PartialEq, Eq, Structural)]
pub enum Failure {
    /// The four-byte algorithm tag names no supported Argon2 variant.
    InvalidAlgorithm,
    /// The version number is neither 0x10 nor 0x13.
    InvalidVersion,
    /// The memory, time or parallelism costs were rejected.
    InvalidParams,
    /// The salt, once encoded, breaks the salt length constraints.
    InvalidSalt,
    /// The digest text is not a well-formed PHC string.
    InvalidDigest,
    /// The digest names an algorithm this module does not support.
    UnknownAlgorithm,
    /// The digest carries a version number this module does not support.
    UnknownVersion,
    /// The secret key material is too long for the hashing library.
    SecretTooLong,
    /// The hashing library reported a failure while deriving the digest.
    HashingFailed,
    /// A memory allocation of the given size could not be served.
    AllocationFailed { size: usize },
}

/// The character for a single decimal digit value.
pub open spec fn digit_char(d: nat) -> char {
    if d == 0 {
        '0'
    } else if d == 1 {
        '1'
    } else if d == 2 {
        '2'
    } else if d == 3 {
        '3'
    } else if d == 4 {
        '4'
    } else if d == 5 {
        '5'
    } else if d == 6 {
        '6'
    } else if d == 7 {
        '7'
    } else if d == 8 {
        '8'
    } else {
        '9'
    }
}

/// The decimal rendering of `n`, most significant digit first.
pub open spec fn dec_digits(n: nat) -> Seq<char>
    decreases n,
{
    if n < 10 {
        seq![digit_char(n)]
    } else {
        dec_digits(n / 10).push(digit_char(n % 10))
    }
}

/// Like `dec_digits`, but empty for zero: the digits still owed while a
/// quotient is being divided down.
pub open spec fn dec_prefix(n: nat) -> Seq<char> {
    if n == 0 {
        Seq::empty()
    } else {
        dec_digits(n)
    }
}

/// The digit characters of `rev` read back to front (`rev` holds digit
/// values least significant first).
pub open spec fn rev_digit_chars(rev: Seq<u8>) -> Seq<char> {
    Seq::new(rev.len(), |i: int| digit_char(rev[rev.len() - 1 - i] as nat))
}

proof fn lemma_dec_prefix_step(m: nat)
    requires
        m > 0,
    ensures
        dec_prefix(m) == dec_prefix(m / 10) + seq![digit_char(m % 10)],
{
    if m < 10 {
        assert(dec_prefix(m) =~= dec_prefix(m / 10) + seq![digit_char(m % 10)]);
    } else {
        assert(dec_digits(m) == dec_digits(m / 10).push(digit_char(m % 10)));
        assert(dec_prefix(m) =~= dec_prefix(m / 10) + seq![digit_char(m % 10)]);
    }
}

/// The string of decimal digits of `n`.
pub fn decimal_string(n: usize) -> (s: String)
    ensures
        s@ == dec_digits(n as nat),
{
    if n == 0 {
        proof {
            reveal_strlit("0");
        }
        let s = String::from_str("0");
        proof {
            assert(s@ =~= dec_digits(0nat));
        }
        return s;
    }
    let mut rev: Vec<u8> = Vec::new();
    let mut m: usize = n;
    proof {
        assert(dec_digits(n as nat) =~= dec_prefix(m as nat) + rev_digit_chars(rev@));
    }
    while m > 0
        invariant
            forall|i: int| 0 <= i < rev@.len() ==> rev@[i] < 10,
            dec_digits(n as nat) == dec_prefix(m as nat) + rev_digit_chars(rev@),
        decreases m,
    {
        let d: u8 = (m % 10) as u8;
        let ghost old_rev = rev@;
        let ghost old_m = m as nat;
        rev.push(d);
        m = m / 10;
        proof {
            lemma_dec_prefix_step(old_m);
            assert(rev_digit_chars(rev@) =~= seq![digit_char(d as nat)] + rev_digit_chars(
                old_rev,
            ));
            assert(dec_prefix(old_m) + rev_digit_chars(old_rev) =~= dec_prefix(m as nat)
                + rev_digit_chars(rev@));
        }
    }
    let mut s = String::new();
    let mut i: usize = rev.len();
    while i > 0
        invariant
            i <= rev@.len(),
            forall|j: int| 0 <= j < rev@.len() ==> rev@[j] < 10,
            s@ == rev_digit_chars(rev@).take(rev@.len() - i),
        decreases i,
    {
        i = i - 1;
        let d = rev[i];
        s.append(digit_str(d));
        proof {
            assert(s@ =~= rev_digit_chars(rev@).take(rev@.len() - i));
        }
    }
    proof {
        assert(rev_digit_chars(rev@).take(rev@.len() - 0) =~= rev_digit_chars(rev@));
        assert(dec_prefix(0nat) + rev_digit_chars(rev@) =~= rev_digit_chars(rev@));
    }
    s
}

/// The one-character string for a decimal digit value.
fn digit_str(d: u8) -> (r: &'static str)
    requires
        d < 10,
    ensures
        r@ == seq![digit_char(d as nat)],
{
    proof {
        reveal_strlit("0");
        reveal_strlit("1");
        reveal_strlit("2");
        reveal_strlit("3");
        reveal_strlit("4");
        reveal_strlit("5");
        reveal_strlit("6");
        reveal_strlit("7");
        reveal_strlit("8");
        reveal_strlit("9");
    }
    match d {
        0 => "0",
        1 => "1",
        2 => "2",
        3 => "3",
        4 => "4",
        5 => "5",
        6 => "6",
        7 => "7",
        8 => "8",
        _ => "9",
    }
}

impl Failure {
    /// The diagnostic text for this failure.  The text is best-effort
    /// content for a human reader, not a stable machine-parsable code.
    pub open spec fn message_spec(self) -> Seq<char> {
        match self {
            Failure::InvalidAlgorithm => "Invalid algorithm"@,
            Failure::InvalidVersion => "Invalid version"@,
            Failure::InvalidParams => "Invalid parameter memory, time, or parallelism"@,
            Failure::InvalidSalt => "Got invalid salt"@,
            Failure::InvalidDigest => "Invalid digest format"@,
            Failure::UnknownAlgorithm => "Invalid algorithm in digest"@,
            Failure::UnknownVersion => "Invalid version in digest"@,
            Failure::SecretTooLong => "Secret too long"@,
            Failure::HashingFailed => "Failed to hash password"@,
            Failure::AllocationFailed { size } => "Memory allocation of "@ + dec_digits(
                size as nat,
            ) + " bytes failed"@,
        }
    }

    /// Render the diagnostic message that a supervising host receives.
    pub fn message(&self) -> (m: String)
        ensures
            m@ == self.message_spec(),
    {
        match self {
            Failure::InvalidAlgorithm => String::from_str("Invalid algorithm"),
            Failure::InvalidVersion => String::from_str("Invalid version"),
            Failure::InvalidParams => String::from_str(
                "Invalid parameter memory, time, or parallelism",
            ),
            Failure::InvalidSalt => String::from_str("Got invalid salt"),
            Failure::InvalidDigest => String::from_str("Invalid digest format"),
            Failure::UnknownAlgorithm => String::from_str("Invalid algorithm in digest"),
            Failure::UnknownVersion => String::from_str("Invalid version in digest"),
            Failure::SecretTooLong => String::from_str("Secret too long"),
            Failure::HashingFailed => String::from_str("Failed to hash password"),
            Failure::AllocationFailed { size } => {
                let mut m = String::from_str("Memory allocation of ");
                let digits = decimal_string(*size);
                m.append(digits.as_str());
                m.append(" bytes failed");
                m
            },
        }
    }
}

/// The failure describing an exhausted allocation of `size` bytes.
pub fn alloc_error_handler(size: usize) -> (f: Failure)
    ensures
        f == (Failure::AllocationFailed { size }),
{
    Failure::AllocationFailed { size }
}

} // verus!
