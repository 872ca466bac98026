//! Durations as text. The grammar of a duration (`1h30m`, `5d`, `2w`) is the
//! parser crate's; this layer adds what a signed duration needs beyond it: a
//! leading minus sign, a text for zero, and the check against the signed range.

use vstd::prelude::*;
use vstd::string::*;

use crate::duration::{max_nanos, SignedDuration, UnsignedDuration, NANOS_PER_SEC};
use crate::error::{Error, ErrorView};

verus! {

/// What `promql_parser::util::duration::parse_duration` returns for a text:
/// the magnitude in nanoseconds, or its message.
pub uninterp spec fn duration_grammar_parse(text: Seq<char>) -> Result<nat, Seq<char>>;

/// What `promql_parser::util::duration::display_duration` returns for a
/// magnitude in nanoseconds.
pub uninterp spec fn duration_grammar_display(nanos: nat) -> Seq<char>;

/// Calls `promql_parser::util::duration::parse_duration`. Unverified claim:
/// the result depends on the text alone, and a magnitude that comes back has
/// fewer than 10^9 nanoseconds beyond its whole seconds.
#[verifier::external_body]
fn grammar_parse_duration(text: &str) -> (r: Result<UnsignedDuration, String>)
    ensures
        match r {
            Ok(d) => d.nanos < NANOS_PER_SEC && duration_grammar_parse(text@) == Ok::<
                nat,
                Seq<char>,
            >(d@),
            Err(msg) => duration_grammar_parse(text@) == Err::<nat, Seq<char>>(msg@),
        },
{
    match promql_parser::util::duration::parse_duration(text) {
        Ok(d) => Ok(UnsignedDuration { secs: d.as_secs(), nanos: d.subsec_nanos() }),
        Err(msg) => Err(msg),
    }
}

/// Calls `promql_parser::util::duration::display_duration`. Unverified
/// claim: the result depends on the magnitude alone.
#[verifier::external_body]
fn grammar_display_duration(d: UnsignedDuration) -> (r: String)
    requires
        d.nanos < NANOS_PER_SEC,
    ensures
        r@ == duration_grammar_display(d@),
{
    promql_parser::util::duration::display_duration(&std::time::Duration::new(d.secs, d.nanos))
}

/// Whether a text begins with a minus sign.
pub open spec fn has_sign(text: Seq<char>) -> bool {
    text.len() > 0 && text[0] == '-'
}

/// A text without its leading minus sign, if it has one.
pub open spec fn unsigned_part(text: Seq<char>) -> Seq<char> {
    if has_sign(text) {
        text.subrange(1, text.len() as int)
    } else {
        text
    }
}

/// The text of a duration with the magnitude text `magnitude`: after a minus
/// sign if the duration points backward.
pub open spec fn signed_text_spec(negative: bool, magnitude: Seq<char>) -> Seq<char> {
    if negative {
        seq!['-'] + magnitude
    } else {
        magnitude
    }
}

/// The text of a signed duration of `n` nanoseconds: the grammar's text of
/// its magnitude, after a minus sign if it points backward.
pub open spec fn display_duration_spec(n: int) -> Seq<char> {
    signed_text_spec(n < 0, duration_grammar_display(magnitude_of(n)))
}

/// The signed duration that a text stands for, given what the grammar made
/// of its unsigned part.
///
/// A magnitude that the grammar read counts if it fits the signed range and
/// is an overflow if not. Where the grammar rejected the text, the text still
/// stands for zero if it is the grammar's own text for zero; otherwise the
/// grammar's message is the failure. A minus sign negates.
pub open spec fn resolve_spec(
    negative: bool,
    read: Result<nat, Seq<char>>,
    is_zero_text: bool,
) -> Result<int, ErrorView> {
    match read {
        Ok(m) => if m <= max_nanos() {
            Ok(if negative { -(m as int) } else { m as int })
        } else {
            Err(ErrorView::Overflow)
        },
        Err(message) => if is_zero_text {
            Ok(0)
        } else {
            Err(ErrorView::Syntax(message))
        },
    }
}

/// What a text stands for as a signed duration.
pub open spec fn parse_duration_spec(text: Seq<char>) -> Result<int, ErrorView> {
    resolve_spec(
        has_sign(text),
        duration_grammar_parse(unsigned_part(text)),
        unsigned_part(text) == duration_grammar_display(0),
    )
}

/// The view of what the grammar made of a text.
pub open spec fn read_view(read: Result<UnsignedDuration, String>) -> Result<nat, Seq<char>> {
    match read {
        Ok(m) => Ok(m@),
        Err(message) => Err(message@),
    }
}

/// Splits a text into its sign and the rest.
pub fn split_sign(text: &str) -> (r: (bool, &str))
    ensures
        r.0 == has_sign(text@),
        r.1@ == unsigned_part(text@),
{
    let len = text.unicode_len();
    if len > 0 && text.get_char(0) == '-' {
        (true, text.substring_char(1, len))
    } else {
        (false, text)
    }
}

/// Decides what signed duration a text stands for, from its sign, from what
/// the grammar made of the rest, and from whether the rest is the grammar's
/// text for zero.
pub fn resolve(negative: bool, read: Result<UnsignedDuration, String>, is_zero_text: bool) -> (r:
    Result<SignedDuration, Error>)
    ensures
        match r {
            Ok(d) => resolve_spec(negative, read_view(read), is_zero_text) == Ok::<int, ErrorView>(
                d@,
            ),
            Err(e) => resolve_spec(negative, read_view(read), is_zero_text) == Err::<
                int,
                ErrorView,
            >(e@),
        },
{
    match read {
        Ok(magnitude) => match SignedDuration::from_unsigned(magnitude) {
            Ok(d) => if negative {
                Ok(d.neg())
            } else {
                Ok(d)
            },
            Err(e) => Err(e),
        },
        Err(message) => if is_zero_text {
            Ok(SignedDuration::zero())
        } else {
            Err(Error::Syntax(message))
        },
    }
}

/// Puts the sign before the text of a magnitude.
pub fn signed_text(negative: bool, magnitude: String) -> (r: String)
    ensures
        r@ == signed_text_spec(negative, magnitude@),
{
    if negative {
        let mut text = String::from_str("-");
        text.append(magnitude.as_str());
        proof {
            reveal_strlit("-");
            assert("-"@ =~= seq!['-']);
        }
        text
    } else {
        magnitude
    }
}

/// Reads a duration text, with or without a leading minus sign.
///
/// Fails with `Syntax` and the grammar's message where the grammar rejects
/// the text, and with `Overflow` where the magnitude exceeds the signed range.
pub fn parse_duration(text: &str) -> (r: Result<SignedDuration, Error>)
    ensures
        match r {
            Ok(d) => parse_duration_spec(text@) == Ok::<int, ErrorView>(d@),
            Err(e) => parse_duration_spec(text@) == Err::<int, ErrorView>(e@),
        },
{
    let (negative, rest) = split_sign(text);
    let read = grammar_parse_duration(rest);
    let is_zero_text = match &read {
        Ok(_) => false,
        Err(_) => {
            let zero = grammar_display_duration(UnsignedDuration { secs: 0, nanos: 0 });
            rest.to_owned() == zero
        },
    };
    resolve(negative, read, is_zero_text)
}

/// Writes a signed duration as text.
pub fn display_duration(d: SignedDuration) -> (r: String)
    ensures
        r@ == display_duration_spec(d@),
{
    signed_text(d.is_negative(), grammar_display_duration(d.magnitude()))
}

/// The length of a duration of `n` nanoseconds, whichever way it points.
pub open spec fn magnitude_of(n: int) -> nat {
    if n < 0 {
        (-n) as nat
    } else {
        n as nat
    }
}

/// Whether the duration grammar reads the magnitude `n` back from the text
/// that it writes for it: it reads that text as `n` (its text for zero it may
/// also reject), and the text does not begin with a minus sign.
///
/// This is a statement about the grammar, which this library calls and does
/// not define. It fails of magnitudes that the grammar writes with a number
/// of more than 32 bits, such as a count of days beyond 4294967295 that is no
/// whole number of weeks, and of magnitudes that are no whole number of
/// milliseconds.
pub open spec fn grammar_reads_back(n: nat) -> bool {
    let written = duration_grammar_display(n);
    &&& duration_grammar_parse(written) == Ok::<nat, Seq<char>>(n) || (n == 0
        && duration_grammar_parse(written) is Err)
    &&& written.len() > 0 ==> written[0] != '-'
}

/// Round trip on value, not text: where a text is read as a duration, the
/// text written for that duration is read as the same duration, be it
/// negative, zero or positive, provided that the grammar reads the
/// duration's magnitude back.
pub proof fn lemma_round_trip_on_value(text: Seq<char>)
    ensures
        parse_duration_spec(text) matches Ok(d) ==> (grammar_reads_back(magnitude_of(d))
            ==> parse_duration_spec(display_duration_spec(d)) == parse_duration_spec(text)),
{
    if parse_duration_spec(text) is Ok {
        let d = parse_duration_spec(text)->Ok_0;
        if grammar_reads_back(magnitude_of(d)) {
            lemma_written_text_is_read_back(d);
        }
    }
}

/// The text written for a duration within the signed range is read as that
/// duration, provided that the grammar reads the duration's magnitude back.
pub proof fn lemma_written_text_is_read_back(d: int)
    requires
        -max_nanos() <= d <= max_nanos(),
    ensures
        grammar_reads_back(magnitude_of(d)) ==> parse_duration_spec(display_duration_spec(d))
            == Ok::<int, ErrorView>(d),
{
    if grammar_reads_back(magnitude_of(d)) {
        let written = duration_grammar_display(magnitude_of(d));
        let shown = display_duration_spec(d);
        if d < 0 {
            assert(shown == seq!['-'] + written);
            assert(shown[0] == '-');
            assert(unsigned_part(shown) =~= written);
        } else {
            assert(unsigned_part(shown) == written);
        }
    }
}

} // verus!
