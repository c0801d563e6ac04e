//! The `readers` listing: which of the detected readers are shown, under
//! which number, and with which text. Opening the reader context, asking the
//! readers and writing to the terminal are left to the caller.

use vstd::prelude::*;
use crate::ascii::{all_ascii, ascii_text, string_from_utf8};

verus! {

/// What was found at one reader.
#[derive(Debug)]
pub struct Reader {
    /// The reader's name.
    pub name: String,
    /// The serial number of the token in it, or `None` where the reader
    /// could not be opened.
    pub serial: Option<u32>,
}

/// What asking the system for its readers came to.
#[derive(Debug)]
pub enum Scan {
    /// The reader context could not be opened.
    NoContext,
    /// The context was opened, but the readers could not be enumerated.
    NoEnumeration,
    /// The readers, in the order of enumeration.
    Found(Vec<Reader>),
}

/// Why nothing is listed. Each of these ends the command with a failure.
#[derive(Copy, Clone, Debug, PartialEq, Eq, Structural)]
pub enum ListError {
    /// The reader context could not be opened.
    Context,
    /// The readers could not be enumerated.
    Enumeration,
    /// No device was detected.
    NoDevices,
}

/// One reader of the listing.
#[derive(Debug)]
pub struct Entry {
    /// The reader's place in the enumeration, counted from 1.
    pub index: usize,
    /// The reader's name.
    pub name: String,
    /// The serial number of the token.
    pub serial: u32,
}

/// The text printed for one reader: the label, shown in bold, and the rest
/// of the line, shown plain.
#[derive(Debug)]
pub struct ReaderLine {
    /// The number, right-aligned in three columns, and a colon.
    pub label: String,
    /// A space, the name, and the serial number in parentheses.
    pub text: String,
}

/// The decimal digits of a number as ASCII codes, without leading zeros.
pub open spec fn decimal(n: nat) -> Seq<u8>
    decreases n,
{
    if n < 10 {
        seq![(0x30 + n) as u8]
    } else {
        decimal(n / 10).push((0x30 + n % 10) as u8)
    }
}

/// The number right-aligned in a field of the given width, filled up with
/// spaces on the left; a longer number is not cut.
pub open spec fn right_aligned(n: nat, width: nat) -> Seq<u8> {
    let digits = decimal(n);
    let fill = if digits.len() < width {
        width - digits.len()
    } else {
        0
    };
    Seq::new(fill as nat, |i: int| 0x20u8) + digits
}

/// The label of a reader: its number in three columns, then a colon.
pub open spec fn label_text(index: nat) -> Seq<char> {
    ascii_text(right_aligned(index, 3).push(0x3au8))
}

/// The rest of a reader's line.
pub open spec fn line_text(name: Seq<char>, serial: nat) -> Seq<char> {
    " "@ + name + " (serial: "@ + ascii_text(decimal(serial)) + ")"@
}

/// The readers that are listed: those that could be opened, each under its
/// place in the enumeration, counted from 1 and over all readers found.
pub open spec fn listing(readers: Seq<Reader>) -> Seq<Entry>
    decreases readers.len(),
{
    if readers.len() == 0 {
        Seq::empty()
    } else {
        let shown = listing(readers.drop_last());
        match readers.last().serial {
            Some(serial) => shown.push(
                Entry { index: readers.len() as usize, name: readers.last().name, serial },
            ),
            None => shown,
        }
    }
}

/// A number has at least one digit, and every digit is between `0` and `9`.
pub proof fn lemma_decimal_digits(n: nat)
    ensures
        decimal(n).len() >= 1,
        forall|i: int| 0 <= i < decimal(n).len() ==> 0x30 <= #[trigger] decimal(n)[i] <= 0x39,
        all_ascii(decimal(n)),
    decreases n,
{
    if n >= 10 {
        lemma_decimal_digits(n / 10);
    }
}

/// The decimal digits of a number.
pub fn decimal_digits(n: u64) -> (digits: Vec<u8>)
    ensures
        digits@ == decimal(n as nat),
{
    let mut digits: Vec<u8> = Vec::new();
    let mut m: u64 = n;
    while m >= 10
        invariant
            decimal(n as nat) == decimal(m as nat) + digits@,
        decreases m,
    {
        let d: u8 = (m % 10) as u8;
        assert(decimal(m as nat) == decimal((m / 10) as nat).push((0x30 + d) as u8));
        assert(decimal((m / 10) as nat).push((0x30 + d) as u8) + digits@ =~= decimal(
            (m / 10) as nat,
        ) + digits@.insert(0, (0x30 + d) as u8));
        digits.insert(0, 0x30 + d);
        m = m / 10;
    }
    assert(decimal(m as nat) + digits@ =~= digits@.insert(0, (0x30 + m) as u8));
    digits.insert(0, 0x30 + (m as u8));
    digits
}

/// The `readers` subcommand.
#[derive(Debug)]
pub struct ReadersCmd {}

impl ReadersCmd {
    /// Decides what the listing shows. It fails when the reader context
    /// could not be opened, when the readers could not be enumerated, and
    /// when none was found. Otherwise every reader that could be opened is
    /// listed, in the order of enumeration; one that could not is left out
    /// but still counted.
    pub fn run(&self, scan: &Scan) -> (result: Result<Vec<Entry>, ListError>)
        ensures
            match *scan {
                Scan::NoContext => result == Err::<Vec<Entry>, ListError>(ListError::Context),
                Scan::NoEnumeration => result == Err::<Vec<Entry>, ListError>(
                    ListError::Enumeration,
                ),
                Scan::Found(readers) => if readers@.len() == 0 {
                    result == Err::<Vec<Entry>, ListError>(ListError::NoDevices)
                } else {
                    result is Ok && result->Ok_0@ == listing(readers@)
                },
            },
    {
        match scan {
            Scan::NoContext => Err(ListError::Context),
            Scan::NoEnumeration => Err(ListError::Enumeration),
            Scan::Found(readers) => {
                if readers.len() == 0 {
                    return Err(ListError::NoDevices);
                }
                let mut shown: Vec<Entry> = Vec::new();
                let mut i: usize = 0;
                while i < readers.len()
                    invariant
                        i <= readers@.len(),
                        shown@ == listing(readers@.take(i as int)),
                    decreases readers@.len() - i,
                {
                    assert(readers@.take(i + 1).drop_last() =~= readers@.take(i as int));
                    match readers[i].serial {
                        Some(serial) => {
                            shown.push(Entry { index: i + 1, name: readers[i].name.clone(), serial });
                        },
                        None => {},
                    }
                    i += 1;
                }
                assert(readers@.take(i as int) =~= readers@);
                Ok(shown)
            },
        }
    }

    /// The text printed for one reader: the label `{index:>3}:` and the line
    /// ` {name} (serial: {serial})`.
    pub fn print_reader(&self, index: usize, name: &str, serial: u32) -> (line: ReaderLine)
        ensures
            line.label@ == label_text(index as nat),
            line.text@ == line_text(name@, serial as nat),
    {
        let digits = decimal_digits(index as u64);
        proof {
            lemma_decimal_digits(index as nat);
        }
        let mut codes: Vec<u8> = Vec::new();
        let mut k: usize = digits.len();
        while k < 3
            invariant
                digits@.len() <= k,
                k <= 3 || k == digits@.len(),
                codes@ == Seq::new((k - digits@.len()) as nat, |i: int| 0x20u8),
            decreases 3 - k,
        {
            codes.push(0x20);
            k += 1;
            assert(codes@ =~= Seq::new((k - digits@.len()) as nat, |i: int| 0x20u8));
        }
        let mut j: usize = 0;
        while j < digits.len()
            invariant
                j <= digits@.len() <= k,
                3 <= k,
                k == 3 || k == digits@.len(),
                codes@ == Seq::new((k - digits@.len()) as nat, |i: int| 0x20u8) + digits@.take(
                    j as int,
                ),
            decreases digits@.len() - j,
        {
            codes.push(digits[j]);
            j += 1;
            assert(codes@ =~= Seq::new((k - digits@.len()) as nat, |i: int| 0x20u8)
                + digits@.take(j as int));
        }
        codes.push(0x3a);
        assert(digits@.take(j as int) =~= digits@);
        assert(codes@ =~= right_aligned(index as nat, 3).push(0x3au8));
        let label = match string_from_utf8(codes) {
            Ok(label) => label,
            // Never taken: spaces, digits and the colon are ASCII.
            Err(_) => String::new(),
        };

        proof {
            lemma_decimal_digits(serial as nat);
        }
        let number = match string_from_utf8(decimal_digits(serial as u64)) {
            Ok(number) => number,
            // Never taken: digits are ASCII.
            Err(_) => String::new(),
        };
        let mut text = String::from_str(" ");
        text.append(name);
        text.append(" (serial: ");
        text.append(number.as_str());
        text.append(")");
        ReaderLine { label, text }
    }
}

} // verus!
