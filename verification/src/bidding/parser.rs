use vstd::prelude::*;
use crate::bidding::{Bid, MAX_BID_NUMBER, MIN_BID_NUMBER};
use crate::cards::{Suit, Trump, suit_at};
use vstd::string::StringSliceAdditionalSpecFns;

verus! {

/// What a parser was looking for when it failed.
#[derive(Debug, Clone, Copy, PartialEq, Eq)]
pub enum ParseErrorKind {
    /// None of the expected words was found.
    Tag,
    /// No number, or a number that is not a legal bid number.
    Digit,
}

/// A parse failure: the byte offset into the input where the failing parser
/// was applied, and what it expected there.
#[derive(Debug, Clone, Copy, PartialEq, Eq)]
pub struct ParseError {
    pub position: usize,
    pub kind: ParseErrorKind,
}

/// Calls `karty::suits::parse::parse_suit` on the part of `s` that starts at
/// byte offset `start`, as `str::get(start..)` hands it over (nothing when
/// `start` is past the end or inside a multi-byte character).
///
/// `parse_suit` tries, in the order of `suit_tag`, the words `spades`, `s`,
/// `hearts`, `h`, `diamonds`, `diax`, `d`, `clubs`, `c`, compared character by
/// character after lower-casing both sides, and the eight suit symbols, and
/// takes the first that the text starts with.  The contract states this
/// outcome over the bytes of `s`: a word matches exactly where its bytes
/// stand there in upper or lower case (the only characters beyond ASCII whose
/// lower case holds an ASCII letter are U+0130, which lower-cases to two
/// characters, and U+212A, which gives `k`, a letter of none of the words),
/// and a symbol matches exactly where its three UTF-8 bytes stand.  A position
/// where one of them starts is a character boundary, so `str::get` hands the
/// text over; where none starts, `parse_suit` fails or is not called.
#[verifier::external_body]
fn parse_suit_at(s: &str, start: usize) -> (r: Option<(usize, Suit)>)
    ensures
        r == match suit_tag(s.spec_bytes(), start as int) {
            Some((n, si)) => Some(((s.spec_bytes().len() - start - n) as usize, suit_at(si))),
            None => None::<(usize, Suit)>,
        },
{
    match s.get(start..).map(karty::suits::parse::parse_suit) {
        Some(Ok((rest, karty::suits::Suit::Spades))) => Some((rest.len(), Suit::Spades)),
        Some(Ok((rest, karty::suits::Suit::Hearts))) => Some((rest.len(), Suit::Hearts)),
        Some(Ok((rest, karty::suits::Suit::Diamonds))) => Some((rest.len(), Suit::Diamonds)),
        Some(Ok((rest, karty::suits::Suit::Clubs))) => Some((rest.len(), Suit::Clubs)),
        _ => None,
    }
}

pub open spec fn tag_spades() -> Seq<u8> {
    seq![115u8, 112u8, 97u8, 100u8, 101u8, 115u8]
}

pub open spec fn tag_hearts() -> Seq<u8> {
    seq![104u8, 101u8, 97u8, 114u8, 116u8, 115u8]
}

pub open spec fn tag_diamonds() -> Seq<u8> {
    seq![100u8, 105u8, 97u8, 109u8, 111u8, 110u8, 100u8, 115u8]
}

pub open spec fn tag_diax() -> Seq<u8> {
    seq![100u8, 105u8, 97u8, 120u8]
}

pub open spec fn tag_clubs() -> Seq<u8> {
    seq![99u8, 108u8, 117u8, 98u8, 115u8]
}

/// UTF-8 bytes of the suit symbol U+2660 + `k` (for `k` from 0 to 7: black
/// spade, white heart, white diamond, black club, white spade, black heart,
/// black diamond, white club).
pub open spec fn tag_symbol(k: u8) -> Seq<u8> {
    seq![0xe2u8, 0x99u8, (0xa0 + k) as u8]
}

/// The first suit word or symbol found at offset `p` of `b`, letters compared
/// without regard to case, tried in this order: `spades`, `s`, black spade,
/// white spade; `hearts`, `h`, black heart, white heart; `diamonds`, `diax`,
/// `d`, black diamond, white diamond; `clubs`, `c`, black club, white club.
/// Gives its length in bytes and the index of its suit.
pub open spec fn suit_tag(b: Seq<u8>, p: int) -> Option<(nat, int)> {
    if tag_at(b, p, tag_spades()) {
        Some((6, 3))
    } else if tag_at(b, p, seq![115u8]) {
        Some((1, 3))
    } else if tag_at(b, p, tag_symbol(0)) || tag_at(b, p, tag_symbol(4)) {
        Some((3, 3))
    } else if tag_at(b, p, tag_hearts()) {
        Some((6, 2))
    } else if tag_at(b, p, seq![104u8]) {
        Some((1, 2))
    } else if tag_at(b, p, tag_symbol(5)) || tag_at(b, p, tag_symbol(1)) {
        Some((3, 2))
    } else if tag_at(b, p, tag_diamonds()) {
        Some((8, 1))
    } else if tag_at(b, p, tag_diax()) {
        Some((4, 1))
    } else if tag_at(b, p, seq![100u8]) {
        Some((1, 1))
    } else if tag_at(b, p, tag_symbol(6)) || tag_at(b, p, tag_symbol(2)) {
        Some((3, 1))
    } else if tag_at(b, p, tag_clubs()) {
        Some((5, 0))
    } else if tag_at(b, p, seq![99u8]) {
        Some((1, 0))
    } else if tag_at(b, p, tag_symbol(3)) || tag_at(b, p, tag_symbol(7)) {
        Some((3, 0))
    } else {
        None
    }
}

/// Lower-case form of an ASCII letter; other bytes are left as they are.
pub open spec fn ascii_lower(c: u8) -> u8 {
    if 65 <= c <= 90 {
        (c + 32) as u8
    } else {
        c
    }
}

pub open spec fn is_digit(c: u8) -> bool {
    48 <= c <= 57
}

pub open spec fn is_blank(c: u8) -> bool {
    c == 32 || c == 9
}

/// The class of decimal digits.
pub open spec fn digit_class() -> spec_fn(u8) -> bool {
    |c: u8| is_digit(c)
}

/// The class of blanks (spaces and tabs).
pub open spec fn blank_class() -> spec_fn(u8) -> bool {
    |c: u8| is_blank(c)
}

/// Whether `tag` stands at offset `p` of `b`, ignoring the case of ASCII letters.
pub open spec fn tag_at(b: Seq<u8>, p: int, tag: Seq<u8>) -> bool {
    &&& 0 <= p
    &&& p + tag.len() <= b.len()
    &&& forall|i: int| 0 <= i < tag.len() ==> ascii_lower(#[trigger] b[p + i]) == tag[i]
}

/// Number of consecutive bytes satisfying `pred` from offset `p`.
pub open spec fn run_length(b: Seq<u8>, p: int, pred: spec_fn(u8) -> bool) -> nat
    decreases b.len() - p,
{
    if p < 0 || p >= b.len() || !pred(b[p]) {
        0
    } else {
        1 + run_length(b, p + 1, pred)
    }
}

/// Decimal value of the `n` bytes of `b` from offset `p`.
pub open spec fn decimal_value(b: Seq<u8>, p: int, n: nat) -> nat
    decreases n,
{
    if n == 0 {
        0
    } else {
        decimal_value(b, p, (n - 1) as nat) * 10 + (b[p + n - 1] - 48) as nat
    }
}

pub open spec fn tag_no_trump() -> Seq<u8> {
    seq![110u8, 111u8, 95u8, 116u8, 114u8, 117u8, 109u8, 112u8]
}

pub open spec fn tag_notrump() -> Seq<u8> {
    seq![110u8, 111u8, 116u8, 114u8, 117u8, 109u8, 112u8]
}

pub open spec fn tag_nt() -> Seq<u8> {
    seq![110u8, 116u8]
}

pub open spec fn tag_n() -> Seq<u8> {
    seq![110u8]
}

/// Length of the no-trump word at offset `p`: the first of `no_trump`,
/// `notrump`, `nt` and `n` found there, ignoring case.
pub open spec fn no_trump_word(b: Seq<u8>, p: int) -> Option<nat> {
    if tag_at(b, p, tag_no_trump()) {
        Some(8)
    } else if tag_at(b, p, tag_notrump()) {
        Some(7)
    } else if tag_at(b, p, tag_nt()) {
        Some(2)
    } else if tag_at(b, p, tag_n()) {
        Some(1)
    } else {
        None
    }
}

/// Trump read from offset `p` of `s`: a suit word or symbol (`suit_tag`),
/// or else a no-trump word; the number of bytes it takes.
pub open spec fn trump_word(s: &str, p: int) -> Option<(nat, Trump)> {
    match suit_tag(s.spec_bytes(), p) {
        Some((n, si)) => Some((n, Trump::Colored(suit_at(si)))),
        None => match no_trump_word(s.spec_bytes(), p) {
            Some(n) => Some((n, Trump::NoTrump)),
            None => None,
        },
    }
}

/// Every byte of a run satisfies the predicate, and the run stays inside `b`.
pub proof fn lemma_run_length(b: Seq<u8>, p: int, pred: spec_fn(u8) -> bool)
    requires
        0 <= p <= b.len(),
    ensures
        p + run_length(b, p, pred) <= b.len(),
        forall|j: int| p <= j < p + run_length(b, p, pred) ==> pred(#[trigger] b[j]),
    decreases b.len() - p,
{
    if p < b.len() && pred(b[p]) {
        lemma_run_length(b, p + 1, pred);
    }
}

fn lower(c: u8) -> (r: u8)
    ensures
        r == ascii_lower(c),
{
    if 65 <= c && c <= 90 {
        c + 32
    } else {
        c
    }
}

fn tag_matches(b: &[u8], p: usize, tag: &[u8]) -> (r: bool)
    ensures
        r == tag_at(b@, p as int, tag@),
{
    if p > b.len() || tag.len() > b.len() - p {
        return false;
    }
    let mut i: usize = 0;
    while i < tag.len()
        invariant
            p + tag.len() <= b.len(),
            i <= tag.len(),
            forall|j: int| 0 <= j < i ==> ascii_lower(#[trigger] b@[p + j]) == tag@[j],
        decreases tag.len() - i,
    {
        if lower(b[p + i]) != tag[i] {
            return false;
        }
        i = i + 1;
    }
    true
}

fn no_trump_at(b: &[u8], p: usize) -> (r: Option<usize>)
    ensures
        match r {
            Some(n) => no_trump_word(b@, p as int) == Some(n as nat),
            None => no_trump_word(b@, p as int) is None,
        },
{
    let t1: [u8; 8] = [110, 111, 95, 116, 114, 117, 109, 112];
    let t2: [u8; 7] = [110, 111, 116, 114, 117, 109, 112];
    let t3: [u8; 2] = [110, 116];
    let t4: [u8; 1] = [110];
    proof {
        assert(t1@ =~= tag_no_trump());
        assert(t2@ =~= tag_notrump());
        assert(t3@ =~= tag_nt());
        assert(t4@ =~= tag_n());
    }
    if tag_matches(b, p, &t1) {
        Some(8)
    } else if tag_matches(b, p, &t2) {
        Some(7)
    } else if tag_matches(b, p, &t3) {
        Some(2)
    } else if tag_matches(b, p, &t4) {
        Some(1)
    } else {
        None
    }
}

fn in_class(c: u8, digits: bool) -> (r: bool)
    ensures
        r == (if digits { is_digit(c) } else { is_blank(c) }),
{
    if digits {
        48 <= c && c <= 57
    } else {
        c == 32 || c == 9
    }
}

fn run_of(b: &[u8], p: usize, digits: bool) -> (r: usize)
    requires
        p <= b.len(),
    ensures
        r == run_length(b@, p as int, if digits { digit_class() } else { blank_class() }),
        p + r <= b.len(),
{
    let ghost pred = if digits { digit_class() } else { blank_class() };
    let mut q: usize = p;
    while q < b.len() && in_class(b[q], digits)
        invariant
            p <= q <= b.len(),
            pred == (if digits { digit_class() } else { blank_class() }),
            run_length(b@, p as int, pred) == (q - p) + run_length(b@, q as int, pred),
        decreases b.len() - q,
    {
        assert(pred(b@[q as int]));
        assert(run_length(b@, q as int, pred) == 1 + run_length(b@, q + 1, pred));
        q = q + 1;
    }
    assert(q == b.len() || !pred(b@[q as int]));
    assert(run_length(b@, q as int, pred) == 0);
    q - p
}

/// Reads a no-trump word (`no_trump`, `notrump`, `nt` or `n`, in any case)
/// at the start of `s`; returns the number of bytes it takes.
pub fn parse_nt(s: &str) -> (r: Result<(usize, Trump), ParseError>)
    ensures
        match no_trump_word(s.spec_bytes(), 0) {
            Some(n) => r == Ok::<(usize, Trump), ParseError>((n as usize, Trump::NoTrump)),
            None => r == Err::<(usize, Trump), ParseError>(ParseError { position: 0, kind: ParseErrorKind::Tag }),
        },
{
    let b = s.as_bytes();
    match no_trump_at(b, 0) {
        Some(n) => Ok((n, Trump::NoTrump)),
        None => Err(ParseError { position: 0, kind: ParseErrorKind::Tag }),
    }
}

/// Reads a no-trump word surrounded by optional spaces and tabs; returns the
/// number of bytes taken, trailing blanks included.
pub fn parse_nt_delimited(s: &str) -> (r: Result<(usize, Trump), ParseError>)
    ensures
        ({
            let b = s.spec_bytes();
            let lead = run_length(b, 0, blank_class());
            match no_trump_word(b, lead as int) {
                Some(n) => r == Ok::<(usize, Trump), ParseError>(
                    ((lead + n + run_length(b, (lead + n) as int, blank_class())) as usize, Trump::NoTrump),
                ),
                None => r == Err::<(usize, Trump), ParseError>(ParseError { position: lead as usize, kind: ParseErrorKind::Tag }),
            }
        }),
{
    let b = s.as_bytes();
    let lead = run_of(b, 0, false);
    match no_trump_at(b, lead) {
        Some(n) => {
            proof {
                assert(tag_at(b@, lead as int, tag_n()));
            }
            let trail = run_of(b, lead + n, false);
            Ok((lead + n + trail, Trump::NoTrump))
        },
        None => Err(ParseError { position: lead, kind: ParseErrorKind::Tag }),
    }
}

fn colored_at(s: &str, p: usize) -> (r: Option<(usize, Trump)>)
    ensures
        r matches Some((n, _)) ==> p + n <= s.spec_bytes().len(),
        match suit_tag(s.spec_bytes(), p as int) {
            Some((n, si)) => r == Some((n as usize, Trump::Colored(suit_at(si)))),
            None => r is None,
        },
{
    let b = s.as_bytes();
    match parse_suit_at(s, p) {
        Some((rem, suit)) => Some((b.len() - p - rem, Trump::Colored(suit))),
        None => None,
    }
}

/// Reads a suit word or symbol (`suit_tag`: a word such as `spades` or `s`,
/// in any case, or a suit symbol) at the start of `s`; returns the number of
/// bytes it takes.
pub fn parse_trump_colored(s: &str) -> (r: Result<(usize, Trump), ParseError>)
    ensures
        match suit_tag(s.spec_bytes(), 0) {
            Some((n, si)) => r == Ok::<(usize, Trump), ParseError>((n as usize, Trump::Colored(suit_at(si)))),
            None => r == Err::<(usize, Trump), ParseError>(ParseError { position: 0, kind: ParseErrorKind::Tag }),
        },
{
    match colored_at(s, 0) {
        Some(x) => Ok(x),
        None => Err(ParseError { position: 0, kind: ParseErrorKind::Tag }),
    }
}

fn trump_at(s: &str, p: usize) -> (r: Option<(usize, Trump)>)
    ensures
        r matches Some((n, _)) ==> p + n <= s.spec_bytes().len(),
        match r {
            Some((n, t)) => trump_word(s, p as int) == Some((n as nat, t)),
            None => trump_word(s, p as int) is None,
        },
{
    let b = s.as_bytes();
    match colored_at(s, p) {
        Some(x) => {
            let blen = b.len();
            assert(blen == s.spec_bytes().len());
            Some(x)
        },
        None => {
            match no_trump_at(b, p) {
                Some(n) => Some((n, Trump::NoTrump)),
                None => None,
            }
        },
    }
}

/// Reads a trump at the start of `s`: a suit name, or else a no-trump word.
pub fn parse_trump(s: &str) -> (r: Result<(usize, Trump), ParseError>)
    ensures
        match trump_word(s, 0) {
            Some((n, t)) => r == Ok::<(usize, Trump), ParseError>((n as usize, t)),
            None => r == Err::<(usize, Trump), ParseError>(ParseError { position: 0, kind: ParseErrorKind::Tag }),
        },
{
    match trump_at(s, 0) {
        Some(x) => Ok(x),
        None => Err(ParseError { position: 0, kind: ParseErrorKind::Tag }),
    }
}

/// Reads a bid: a decimal number, optional spaces or tabs, and a trump.  The
/// number must be a legal bid number (1 to 7).  Returns the bid and the number
/// of bytes it takes.
pub fn parse_bid(s: &str) -> (r: Result<(usize, Bid), ParseError>)
    ensures
        ({
            let b = s.spec_bytes();
            let d = run_length(b, 0, digit_class());
            let sp = run_length(b, d as int, blank_class());
            if d == 0 {
                r == Err::<(usize, Bid), ParseError>(ParseError { position: 0, kind: ParseErrorKind::Digit })
            } else {
                match trump_word(s, (d + sp) as int) {
                    None => r == Err::<(usize, Bid), ParseError>(ParseError { position: (d + sp) as usize, kind: ParseErrorKind::Tag }),
                    Some((n, t)) => {
                        let v = decimal_value(b, 0, d);
                        if MIN_BID_NUMBER <= v <= MAX_BID_NUMBER {
                            r matches Ok((len, bid)) && len == d + sp + n && bid.trump_spec() == t
                                && bid.number_spec() == v
                        } else {
                            r == Err::<(usize, Bid), ParseError>(ParseError { position: 0, kind: ParseErrorKind::Digit })
                        }
                    },
                }
            }
        }),
{
    let b = s.as_bytes();
    let d = run_of(b, 0, true);
    proof {
        lemma_run_length(b@, 0, digit_class());
    }
    if d == 0 {
        return Err(ParseError { position: 0, kind: ParseErrorKind::Digit });
    }
    let sp = run_of(b, d, false);
    let (n, trump) = match trump_at(s, d + sp) {
        Some(x) => x,
        None => {
            return Err(ParseError { position: d + sp, kind: ParseErrorKind::Tag });
        },
    };
    // decimal value, saturating above the largest legal bid number
    let mut v: u8 = 0;
    let mut i: usize = 0;
    let mut big = false;
    while i < d
        invariant
            i <= d,
            d <= b.len(),
            forall|j: int| 0 <= j < d ==> is_digit(#[trigger] b@[j]),
            !big ==> v == decimal_value(b@, 0, i as nat),
            big ==> decimal_value(b@, 0, i as nat) > MAX_BID_NUMBER,
            v <= 25,
        decreases d - i,
    {
        if !big {
            let nv: u16 = v as u16 * 10 + (b[i] - 48) as u16;
            if nv > 25 {
                big = true;
            } else {
                v = nv as u8;
            }
        }
        i = i + 1;
    }
    if big {
        return Err(ParseError { position: 0, kind: ParseErrorKind::Digit });
    }
    assert(v == decimal_value(b@, 0, d as nat));
    assert(trump_word(s, (d + sp) as int) == Some((n as nat, trump)));
    match Bid::init(trump, v) {
        Ok(bid) => Ok((d + sp + n, bid)),
        Err(_) => Err(ParseError { position: 0, kind: ParseErrorKind::Digit }),
    }
}

} // verus!
