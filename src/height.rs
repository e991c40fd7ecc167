use vstd::prelude::*;

use crate::error::ClientError;
use crate::text::{
    all_digits, decimal_of, lemma_parse_decimal, parse_u64, parse_u64_spec,
    IntParseError, decimal_text,
};
use std::cmp::Ordering;

verus! {

/// A block height of a counterparty chain: a revision number, bumped at each
/// chain upgrade, and a block counter within that revision (never zero).
#[derive(Clone, Copy, PartialEq, Eq, Structural, Hash, Debug, Ord)]
pub struct Height {
    pub revision_number: u64,
    pub revision_height: u64,
}

/// Lexicographic order on heights: revision first, then block counter.
pub open spec fn height_lt(a: Height, b: Height) -> bool {
    a.revision_number < b.revision_number || (a.revision_number == b.revision_number
        && a.revision_height < b.revision_height)
}

pub open spec fn height_le(a: Height, b: Height) -> bool {
    height_lt(a, b) || a == b
}

pub open spec fn height_cmp(a: Height, b: Height) -> Ordering {
    if height_lt(a, b) {
        Ordering::Less
    } else if a == b {
        Ordering::Equal
    } else {
        Ordering::Greater
    }
}

impl Height {
    /// A height is valid when its block counter is not zero.
    pub open spec fn wf(&self) -> bool {
        self.revision_height >= 1
    }

    pub open spec fn spec_new(revision_number: u64, revision_height: u64) -> Height {
        Height { revision_number, revision_height }
    }

    pub fn new(revision_number: u64, revision_height: u64) -> (r: Result<Height, ClientError>)
        ensures
            revision_height == 0 <==> r == Err::<Height, ClientError>(ClientError::InvalidHeight),
            revision_height != 0 <==> r == Ok::<Height, ClientError>(
                Height::spec_new(revision_number, revision_height),
            ),
    {
        if revision_height == 0 {
            return Err(ClientError::InvalidHeight);
        }
        Ok(Height { revision_number, revision_height })
    }

    /// The first height of a revision.
    pub fn min(revision_number: u64) -> (r: Height)
        ensures
            r == Height::spec_new(revision_number, 1),
            r.wf(),
    {
        Height { revision_number, revision_height: 1 }
    }

    pub fn revision_number(&self) -> (r: u64)
        ensures
            r == self.revision_number,
    {
        self.revision_number
    }

    pub fn revision_height(&self) -> (r: u64)
        ensures
            r == self.revision_height,
    {
        self.revision_height
    }

    /// Advances the block counter by `delta` within the same revision.
    pub fn add(&self, delta: u64) -> (r: Height)
        requires
            self.revision_height + delta <= u64::MAX,
        ensures
            r.revision_number == self.revision_number,
            r.revision_height == self.revision_height + delta,
    {
        Height {
            revision_number: self.revision_number,
            revision_height: self.revision_height + delta,
        }
    }

    pub fn increment(&self) -> (r: Height)
        requires
            self.revision_height < u64::MAX,
        ensures
            r.revision_number == self.revision_number,
            r.revision_height == self.revision_height + 1,
    {
        self.add(1)
    }

    /// Moves the block counter back by `delta`; fails when that would reach zero.
    pub fn sub(&self, delta: u64) -> (r: Result<Height, ClientError>)
        ensures
            self.revision_height <= delta <==> r == Err::<Height, ClientError>(
                ClientError::InvalidHeightResult,
            ),
            self.revision_height > delta <==> r == Ok::<Height, ClientError>(
                Height::spec_new(self.revision_number, (self.revision_height - delta) as u64),
            ),
    {
        if self.revision_height <= delta {
            return Err(ClientError::InvalidHeightResult);
        }
        Ok(Height {
            revision_number: self.revision_number,
            revision_height: self.revision_height - delta,
        })
    }

    pub fn decrement(&self) -> (r: Result<Height, ClientError>)
        ensures
            self.revision_height <= 1 <==> r == Err::<Height, ClientError>(
                ClientError::InvalidHeightResult,
            ),
            self.revision_height > 1 <==> r == Ok::<Height, ClientError>(
                Height::spec_new(self.revision_number, (self.revision_height - 1) as u64),
            ),
    {
        self.sub(1)
    }

    /// Compares two heights, revision first.
    pub fn compare(&self, other: &Height) -> (r: Ordering)
        ensures
            r == height_cmp(*self, *other),
    {
        if self.revision_number < other.revision_number {
            Ordering::Less
        } else if self.revision_number > other.revision_number {
            Ordering::Greater
        } else if self.revision_height < other.revision_height {
            Ordering::Less
        } else if self.revision_height > other.revision_height {
            Ordering::Greater
        } else {
            Ordering::Equal
        }
    }

    /// `self < other` in the order of heights.
    pub fn is_lt(&self, other: &Height) -> (r: bool)
        ensures
            r == height_lt(*self, *other),
    {
        self.revision_number < other.revision_number || (self.revision_number
            == other.revision_number && self.revision_height < other.revision_height)
    }

    /// The text form of a height: `"{revision_number}-{revision_height}"`.
    pub open spec fn text(&self) -> Seq<char> {
        decimal_of(self.revision_number as nat) + seq!['-'] + decimal_of(
            self.revision_height as nat,
        )
    }

    pub fn to_text(&self) -> (r: String)
        ensures
            r@ == self.text(),
    {
        let mut s = decimal_text(self.revision_number);
        s.append("-");
        proof {
            reveal_strlit("-");
        }
        let t = decimal_text(self.revision_height);
        s.append(t.as_str());
        s
    }

    /// Parses the text form of a height.
    pub fn parse(value: &str) -> (r: Result<Height, HeightError>)
        ensures
            match parse_height_spec(value@) {
                Ok(h) => r == Ok::<Height, HeightError>(h),
                Err(f) => r is Err && r->Err_0.failure() == f && (f != HeightFailure::Zero
                    ==> r->Err_0.text() == value@),
            },
    {
        let n = value.unicode_len();
        let mut count: usize = 0;
        let mut first: usize = 0;
        let mut i: usize = 0;
        while i < n
            invariant
                n == value@.len(),
                i <= n,
                count <= i,
                count == dash_count(value@.subrange(0, i as int)),
                count >= 1 ==> is_first_dash(value@, first as int) && first < i,
                count == 0 ==> forall|j: int| 0 <= j < i ==> value@[j] != '-',
            decreases n - i,
        {
            let c = value.get_char(i);
            assert(value@.subrange(0, i + 1).drop_last() =~= value@.subrange(0, i as int));
            if c == '-' {
                if count == 0 {
                    first = i;
                }
                count = count + 1;
            }
            i = i + 1;
        }
        assert(value@.subrange(0, n as int) =~= value@);
        if count != 1 {
            return Err(HeightError::InvalidHeight { raw_height: String::from_str(value) });
        }
        proof {
            lemma_first_dash_unique(value@, first as int);
        }
        let a = value.substring_char(0, first);
        let b = value.substring_char(first + 1, n);
        let pa = parse_u64(a);
        let x = match pa {
            Ok(x) => x,
            Err(e) => {
                return Err(
                    HeightError::HeightConversion { height: String::from_str(value), error: e },
                );
            },
        };
        let pb = parse_u64(b);
        let y = match pb {
            Ok(y) => y,
            Err(e) => {
                return Err(
                    HeightError::HeightConversion { height: String::from_str(value), error: e },
                );
            },
        };
        match Height::new(x, y) {
            Ok(h) => Ok(h),
            Err(_) => Err(HeightError::ZeroHeight),
        }
    }
}

impl std::str::FromStr for Height {
    type Err = HeightError;

    fn from_str(s: &str) -> Result<Height, HeightError> {
        Height::parse(s)
    }
}

impl PartialOrd for Height {
    fn partial_cmp(&self, other: &Height) -> (r: Option<Ordering>)
        ensures
            r == Some(height_cmp(*self, *other)),
    {
        Some(self.compare(other))
    }
}

impl vstd::std_specs::cmp::PartialOrdSpecImpl for Height {
    open spec fn obeys_partial_cmp_spec() -> bool {
        true
    }

    open spec fn partial_cmp_spec(&self, other: &Height) -> Option<Ordering> {
        Some(height_cmp(*self, *other))
    }
}

/// The ways the text form of a height can be rejected.
#[derive(Clone, Copy, PartialEq, Eq, Structural, Debug)]
pub enum HeightFailure {
    /// Not exactly one `-` separator.
    Shape,
    /// A part is not an unsigned 64-bit decimal number.
    Number(IntParseError),
    /// The block counter is zero.
    Zero,
}

/// Errors on the text form of a height.
#[derive(Clone, PartialEq, Eq, Debug)]
pub enum HeightError {
    /// A part of `height` is not a number.
    HeightConversion { height: String, error: IntParseError },
    /// The block counter is zero.
    ZeroHeight,
    /// `raw_height` is not of the form `revision_number-revision_height`.
    InvalidHeight { raw_height: String },
}

impl HeightError {
    pub open spec fn failure(&self) -> HeightFailure {
        match self {
            HeightError::HeightConversion { error, .. } => HeightFailure::Number(*error),
            HeightError::ZeroHeight => HeightFailure::Zero,
            HeightError::InvalidHeight { .. } => HeightFailure::Shape,
        }
    }

    /// The text the error was raised on (empty for a zero height).
    pub open spec fn text(&self) -> Seq<char> {
        match self {
            HeightError::HeightConversion { height, .. } => height@,
            HeightError::ZeroHeight => Seq::empty(),
            HeightError::InvalidHeight { raw_height } => raw_height@,
        }
    }
}

/// Number of `-` characters in `s`.
pub open spec fn dash_count(s: Seq<char>) -> nat
    decreases s.len(),
{
    if s.len() == 0 {
        0
    } else {
        dash_count(s.drop_last()) + if s.last() == '-' {
            1nat
        } else {
            0nat
        }
    }
}

/// `i` is the position of the first `-` in `s`.
pub open spec fn is_first_dash(s: Seq<char>, i: int) -> bool {
    &&& 0 <= i < s.len()
    &&& s[i] == '-'
    &&& forall|j: int| 0 <= j < i ==> s[j] != '-'
}

pub open spec fn first_dash(s: Seq<char>) -> int {
    choose|i: int| is_first_dash(s, i)
}

/// What parsing `s` as a height gives: exactly one `-`, a decimal on each side,
/// and a block counter that is not zero.
pub open spec fn parse_height_spec(s: Seq<char>) -> Result<Height, HeightFailure> {
    if dash_count(s) != 1 {
        Err(HeightFailure::Shape)
    } else {
        let i = first_dash(s);
        let a = s.subrange(0, i);
        let b = s.subrange(i + 1, s.len() as int);
        match parse_u64_spec(a) {
            Err(e) => Err(HeightFailure::Number(e)),
            Ok(x) => match parse_u64_spec(b) {
                Err(e) => Err(HeightFailure::Number(e)),
                Ok(y) => if y == 0 {
                    Err(HeightFailure::Zero)
                } else {
                    Ok(Height::spec_new(x, y))
                },
            },
        }
    }
}

proof fn lemma_first_dash_unique(s: Seq<char>, i: int)
    requires
        is_first_dash(s, i),
    ensures
        first_dash(s) == i,
{
    let k = first_dash(s);
    assert(is_first_dash(s, k));
    if k < i {
        assert(s[k] != '-');
    } else if k > i {
        assert(s[i] != '-');
    }
}

proof fn lemma_dash_count_digits(p: Seq<char>, b: Seq<char>)
    requires
        all_digits(b),
    ensures
        dash_count(p + b) == dash_count(p),
    decreases b.len(),
{
    if b.len() > 0 {
        assert((p + b).drop_last() =~= p + b.drop_last());
        lemma_dash_count_digits(p, b.drop_last());
    } else {
        assert(p + b =~= p);
    }
}

/// Every valid height reads back from its text form.
pub proof fn lemma_text_round_trip(h: Height)
    requires
        h.wf(),
    ensures
        parse_height_spec(h.text()) == Ok::<Height, HeightFailure>(h),
{
    let a = decimal_of(h.revision_number as nat);
    let b = decimal_of(h.revision_height as nat);
    lemma_parse_decimal(h.revision_number as nat);
    lemma_parse_decimal(h.revision_height as nat);
    let s = h.text();
    let p = a + seq!['-'];
    assert(s =~= p + b);
    lemma_dash_count_digits(Seq::empty(), a);
    assert(Seq::<char>::empty() + a =~= a);
    assert(p.drop_last() =~= a);
    lemma_dash_count_digits(p, b);
    assert(is_first_dash(s, a.len() as int));
    lemma_first_dash_unique(s, a.len() as int);
    assert(s.subrange(0, a.len() as int) =~= a);
    assert(s.subrange(a.len() + 1 as int, s.len() as int) =~= b);
}

/// A height built from any revision and a non-zero counter keeps both, and
/// reads back from its text form.
pub proof fn lemma_new_round_trip(a: u64, b: u64)
    requires
        b > 0,
    ensures
        Height::spec_new(a, b).wf(),
        Height::spec_new(a, b).revision_number == a,
        Height::spec_new(a, b).revision_height == b,
        parse_height_spec(Height::spec_new(a, b).text()) == Ok::<Height, HeightFailure>(
            Height::spec_new(a, b),
        ),
{
    lemma_text_round_trip(Height::spec_new(a, b));
}

/// The order of heights is total.
pub proof fn lemma_order_total(a: Height, b: Height)
    ensures
        height_lt(a, b) || a == b || height_lt(b, a),
        !(height_lt(a, b) && height_lt(b, a)),
        !height_lt(a, a),
{
}

/// The order of heights is transitive.
pub proof fn lemma_order_transitive(a: Height, b: Height, c: Height)
    requires
        height_lt(a, b),
        height_lt(b, c),
    ensures
        height_lt(a, c),
{
}

} // verus!
