//! The envelope of a payload: an armored message, line by line.
//!
//! A payload keeps the envelope when it has between three and two hundred
//! lines, opens with the header line and an empty line, closes with the
//! footer line, and every line after the first two is short and made of
//! the permitted characters only.

use vstd::prelude::*;
use crate::text::{
    is_alphanumeric,
    is_letter_or_digit,
    join_lines,
    lemma_split_of_join,
    line_views,
    lines,
    plain_line,
    same_text,
    split_lines,
};

verus! {

/// The first line of every payload.
pub const PGP_HEADER: &'static str = "-----BEGIN PGP MESSAGE-----";

/// The last line of every payload.
pub const PGP_FOOTER: &'static str = "-----END PGP MESSAGE-----";

/// The most lines a payload may have.
pub const MAX_LINES: usize = 200;

/// The most characters a line after the first two may have.
pub const MAX_LINE_LENGTH: usize = 60;

/// The rule of the envelope that a payload breaks first.
#[derive(Clone, Copy, Debug, PartialEq, Eq, Structural)]
pub enum EnvelopeError {
    /// The payload has more than `MAX_LINES` lines.
    TooLong,
    /// The first line is not the header, or the second is not empty.
    MalformedHeader,
    /// A line after the first two has more than `MAX_LINE_LENGTH` characters.
    LineTooLong,
    /// A line after the first two holds a character that is not permitted.
    IllegalCharacter,
    /// The last line is not the footer.
    MalformedFooter,
}

/// A character that a line after the first two may hold: a letter, a digit,
/// or one of `+`, `/`, `=`, `-` and the space.
pub open spec fn allowed_char(c: char) -> bool {
    is_alphanumeric(c) || c == '+' || c == '/' || c == '=' || c == '-' || c == ' '
}

/// The characters of the header line.
pub open spec fn header() -> Seq<char> {
    PGP_HEADER@
}

/// The characters of the footer line.
pub open spec fn footer() -> Seq<char> {
    PGP_FOOTER@
}

/// A line made of permitted characters only.
pub open spec fn all_allowed(line: Seq<char>) -> bool {
    forall|k: int| 0 <= k < line.len() ==> allowed_char(#[trigger] line[k])
}

/// A line after the first two that breaks no rule of its own.
pub open spec fn body_line_ok(line: Seq<char>) -> bool {
    line.len() <= MAX_LINE_LENGTH && all_allowed(line)
}

/// The envelope, rule by rule.
pub open spec fn envelope_ok(s: Seq<char>) -> bool {
    let all = split_lines(s);
    &&& 3 <= all.len() <= MAX_LINES
    &&& all[0] == header()
    &&& all[1].len() == 0
    &&& forall|i: int| 2 <= i < all.len() ==> body_line_ok(#[trigger] all[i])
    &&& all.last() == footer()
}

/// The rule that one line after the first two breaks, if any. Its length is
/// judged before its characters, and those before the footer.
pub open spec fn line_fault(line: Seq<char>, last: bool) -> Option<EnvelopeError> {
    if line.len() > MAX_LINE_LENGTH {
        Some(EnvelopeError::LineTooLong)
    } else if !all_allowed(line) {
        Some(EnvelopeError::IllegalCharacter)
    } else if last && line != footer() {
        Some(EnvelopeError::MalformedFooter)
    } else {
        None
    }
}

/// The verdict on the lines from `from` on: the fault of the first one that
/// has any.
pub open spec fn body_verdict(all: Seq<Seq<char>>, from: int) -> Result<(), EnvelopeError>
    decreases all.len() - from,
{
    if from < 0 || from >= all.len() {
        Ok(())
    } else {
        match line_fault(all[from], from == all.len() - 1) {
            Some(e) => Err(e),
            None => body_verdict(all, from + 1),
        }
    }
}

/// The verdict on a payload: `Ok`, or the rule that it breaks first. The
/// number of lines is judged first, then the two opening lines, then the
/// others in order.
pub open spec fn envelope_verdict(s: Seq<char>) -> Result<(), EnvelopeError> {
    let all = split_lines(s);
    if all.len() > MAX_LINES {
        Err(EnvelopeError::TooLong)
    } else if all.len() < 1 || all[0] != header() {
        Err(EnvelopeError::MalformedHeader)
    } else if all.len() < 2 || all[1].len() != 0 {
        Err(EnvelopeError::MalformedHeader)
    } else if all.len() < 3 {
        Err(EnvelopeError::MalformedFooter)
    } else {
        body_verdict(all, 2)
    }
}

/// The lines from `from` on are judged faultless exactly when each of them
/// is in order and the last line is the footer.
pub proof fn lemma_body_verdict(all: Seq<Seq<char>>, from: int)
    requires
        0 <= from < all.len(),
    ensures
        body_verdict(all, from) is Ok <==> {
            &&& forall|i: int| from <= i < all.len() ==> body_line_ok(#[trigger] all[i])
            &&& all.last() == footer()
        },
    decreases all.len() - from,
{
    if from + 1 < all.len() {
        lemma_body_verdict(all, from + 1);
    } else {
        assert(body_verdict(all, from + 1) is Ok);
    }
}

/// A payload is judged `Ok` exactly when it keeps every rule of the envelope.
pub proof fn lemma_verdict_ok_iff_envelope_ok(s: Seq<char>)
    ensures
        envelope_verdict(s) is Ok <==> envelope_ok(s),
{
    let all = split_lines(s);
    if all.len() >= 3 {
        lemma_body_verdict(all, 2);
    }
}

/// A payload that breaks any one rule is rejected: too many lines or fewer
/// than three, a first line that is not the header, a second line that is
/// not empty, a later line that is too long or holds a character that is not
/// permitted, a last line that is not the footer.
pub proof fn lemma_broken_rule_is_rejected(s: Seq<char>)
    ensures
        split_lines(s).len() > MAX_LINES ==> envelope_verdict(s) is Err,
        split_lines(s).len() < 3 ==> envelope_verdict(s) is Err,
        split_lines(s)[0] != header() ==> envelope_verdict(s) is Err,
        split_lines(s)[1].len() != 0 ==> envelope_verdict(s) is Err,
        (exists|i: int|
            2 <= i < split_lines(s).len() && (#[trigger] split_lines(s)[i]).len()
                > MAX_LINE_LENGTH) ==> envelope_verdict(s) is Err,
        (exists|i: int, k: int|
            2 <= i < split_lines(s).len() && 0 <= k < split_lines(s)[i].len() && !allowed_char(
                #[trigger] split_lines(s)[i][k],
            )) ==> envelope_verdict(s) is Err,
        split_lines(s).last() != footer() ==> envelope_verdict(s) is Err,
{
    lemma_verdict_ok_iff_envelope_ok(s);
}

/// The payload made of the header, an empty line, the lines of `body` and
/// the footer, with a line feed between each two.
pub open spec fn armored(body: Seq<Seq<char>>) -> Seq<char> {
    join_lines(seq![header(), Seq::empty()] + body + seq![footer()])
}

/// The header and the footer are plain lines, and the footer is in order as
/// a line after the first two.
pub proof fn lemma_markers_are_plain()
    ensures
        plain_line(header()),
        plain_line(footer()),
        body_line_ok(footer()),
        header().len() == 27,
        footer().len() == 25,
{
    reveal_strlit("-----BEGIN PGP MESSAGE-----");
    reveal_strlit("-----END PGP MESSAGE-----");
}

/// Every payload that is built as the envelope asks keeps the envelope: the
/// header, an empty line, at most 197 lines that are each in order, and the
/// footer.
pub proof fn lemma_armored_payload_keeps_envelope(body: Seq<Seq<char>>)
    requires
        body.len() + 3 <= MAX_LINES,
        forall|i: int| 0 <= i < body.len() ==> body_line_ok(#[trigger] body[i]),
    ensures
        envelope_ok(armored(body)),
        envelope_verdict(armored(body)) is Ok,
{
    lemma_markers_are_plain();
    let all = seq![header(), Seq::empty()] + body + seq![footer()];
    assert forall|i: int| 0 <= i < all.len() implies plain_line(#[trigger] all[i]) by {
        if 2 <= i < all.len() - 1 {
            let line = body[i - 2];
            assert(all[i] == line);
            assert(body_line_ok(line));
            assert forall|k: int| 0 <= k < line.len() implies line[k] != '\n' by {
                assert(allowed_char(line[k]));
            }
            if line.len() > 0 {
                assert(allowed_char(line[line.len() - 1]));
            }
        }
    }
    lemma_split_of_join(all);
    assert forall|i: int| 2 <= i < all.len() implies body_line_ok(#[trigger] all[i]) by {
        if i < all.len() - 1 {
            assert(all[i] == body[i - 2]);
        }
    }
    lemma_verdict_ok_iff_envelope_ok(armored(body));
}

/// Whether `c` may stand in a line after the first two.
pub fn is_allowed(c: char) -> (ok: bool)
    ensures
        ok == allowed_char(c),
{
    is_letter_or_digit(c) || c == '+' || c == '/' || c == '=' || c == '-' || c == ' '
}

/// Judges one line after the first two; `last` says whether it is the last
/// line of the payload.
pub fn check_line(line: &Vec<char>, last: bool) -> (fault: Option<EnvelopeError>)
    ensures
        fault == line_fault(line@, last),
{
    if line.len() > MAX_LINE_LENGTH {
        return Some(EnvelopeError::LineTooLong);
    }
    let mut k: usize = 0;
    while k < line.len()
        invariant
            k <= line.len() <= MAX_LINE_LENGTH,
            forall|j: int| 0 <= j < k ==> allowed_char(#[trigger] line@[j]),
        decreases line.len() - k,
    {
        if !is_allowed(line[k]) {
            assert(!allowed_char(line@[k as int]));
            return Some(EnvelopeError::IllegalCharacter);
        }
        k += 1;
    }
    if last && !same_text(line, PGP_FOOTER) {
        return Some(EnvelopeError::MalformedFooter);
    }
    None
}

/// Judges a payload against the envelope. Returns `Ok` exactly when the
/// payload keeps every rule, and otherwise the rule that it breaks first.
pub fn is_valid_pgp_message(pgp_message: &str) -> (verdict: Result<(), EnvelopeError>)
    ensures
        verdict == envelope_verdict(pgp_message@),
        verdict is Ok <==> envelope_ok(pgp_message@),
{
    proof {
        lemma_verdict_ok_iff_envelope_ok(pgp_message@);
    }
    let all = lines(pgp_message);
    let ghost views = line_views(all@);
    let line_count = all.len();
    if line_count > MAX_LINES {
        return Err(EnvelopeError::TooLong);
    }
    if line_count < 1 || !same_text(&all[0], PGP_HEADER) {
        assert(line_count >= 1 ==> views[0] == all@[0]@);
        return Err(EnvelopeError::MalformedHeader);
    }
    assert(views[0] == all@[0]@);
    if line_count < 2 || all[1].len() != 0 {
        assert(line_count >= 2 ==> views[1] == all@[1]@);
        return Err(EnvelopeError::MalformedHeader);
    }
    assert(views[1] == all@[1]@);
    if line_count < 3 {
        return Err(EnvelopeError::MalformedFooter);
    }
    let mut i: usize = 2;
    while i < line_count
        invariant
            2 <= i <= line_count,
            line_count == all.len(),
            views == line_views(all@),
            envelope_verdict(pgp_message@) == body_verdict(views, i as int),
        decreases line_count - i,
    {
        let fault = check_line(&all[i], i == line_count - 1);
        assert(fault == line_fault(views[i as int], i == views.len() - 1));
        match fault {
            Some(e) => {
                proof {
                    lemma_verdict_ok_iff_envelope_ok(pgp_message@);
                }
                return Err(e);
            },
            None => {},
        }
        i += 1;
    }
    Ok(())
}

} // verus!
