//! The field rules of `rok_validate` (required, email, min, max, same) and
//! the error messages they record.

use vstd::prelude::*;
use crate::decimal::decimal_digits;

verus! {

#[verifier::external_type_specification]
#[verifier::external_body]
pub struct ExValidationErrors(rok_validate::ValidationErrors);

/// The messages recorded so far, by field, in the order they were added.
pub uninterp spec fn validation_messages(e: rok_validate::ValidationErrors) -> Map<
    Seq<char>,
    Seq<Seq<char>>,
>;

pub type Messages = Map<Seq<char>, Seq<Seq<char>>>;

pub open spec fn no_messages() -> Messages {
    Map::empty()
}

/// A character with the Unicode `White_Space` property (what `str::trim`
/// strips).
pub open spec fn is_white_space(c: char) -> bool {
    let n = c as u32;
    ||| 0x9 <= n <= 0xd
    ||| n == 0x20
    ||| n == 0x85
    ||| n == 0xa0
    ||| n == 0x1680
    ||| 0x2000 <= n <= 0x200a
    ||| n == 0x2028
    ||| n == 0x2029
    ||| n == 0x202f
    ||| n == 0x205f
    ||| n == 0x3000
}

/// Nothing but white space (`s.trim().is_empty()`).
pub open spec fn is_blank(s: Seq<char>) -> bool {
    forall|i: int| 0 <= i < s.len() ==> is_white_space(#[trigger] s[i])
}

/// `k` is the position of the first `@` in `s`.
pub open spec fn first_at(s: Seq<char>, k: int) -> bool {
    &&& 0 <= k < s.len()
    &&& s[k] == '@'
    &&& forall|j: int| 0 <= j < k ==> s[j] != '@'
}

/// The part after the first `@` holds a `.`, and neither starts nor ends
/// with one.
pub open spec fn is_mail_domain(d: Seq<char>) -> bool {
    &&& d.contains('.')
    &&& d[0] != '.'
    &&& d.last() != '.'
}

/// The email rule: a non-empty part before the first `@`, and a domain
/// after it.
pub open spec fn is_email(s: Seq<char>) -> bool {
    exists|k: int| #[trigger] first_at(s, k) && k > 0 && is_mail_domain(s.skip(k + 1))
}

pub open spec fn required_message(field: Seq<char>) -> Seq<char> {
    "The "@ + field + " field is required."@
}

pub open spec fn email_message(field: Seq<char>) -> Seq<char> {
    "The "@ + field + " field must be a valid email address."@
}

pub open spec fn min_len_message(field: Seq<char>, min: nat) -> Seq<char> {
    "The "@ + field + " field must be at least "@ + decimal_digits(min) + " character(s)."@
}

pub open spec fn max_len_message(field: Seq<char>, max: nat) -> Seq<char> {
    "The "@ + field + " field may not be greater than "@ + decimal_digits(max) + " character(s)."@
}

pub open spec fn same_message(field: Seq<char>) -> Seq<char> {
    "The "@ + field + " field confirmation does not match."@
}

/// `msg` added after the messages already recorded for `field`.
pub open spec fn add_message(
    m: Map<Seq<char>, Seq<Seq<char>>>,
    field: Seq<char>,
    msg: Seq<char>,
) -> Map<Seq<char>, Seq<Seq<char>>> {
    let before = if m.contains_key(field) {
        m[field]
    } else {
        Seq::empty()
    };
    m.insert(field, before.push(msg))
}

pub open spec fn rule_required(m: Map<Seq<char>, Seq<Seq<char>>>, field: Seq<char>, val: Seq<char>) -> Map<Seq<char>, Seq<Seq<char>>> {
    if is_blank(val) {
        add_message(m, field, required_message(field))
    } else {
        m
    }
}

pub open spec fn rule_email(m: Map<Seq<char>, Seq<Seq<char>>>, field: Seq<char>, val: Seq<char>) -> Map<Seq<char>, Seq<Seq<char>>> {
    if is_email(val) {
        m
    } else {
        add_message(m, field, email_message(field))
    }
}

pub open spec fn rule_min_len(m: Map<Seq<char>, Seq<Seq<char>>>, field: Seq<char>, val: Seq<char>, min: nat) -> Map<Seq<char>, Seq<Seq<char>>> {
    if val.len() < min {
        add_message(m, field, min_len_message(field, min))
    } else {
        m
    }
}

pub open spec fn rule_max_len(m: Map<Seq<char>, Seq<Seq<char>>>, field: Seq<char>, val: Seq<char>, max: nat) -> Map<Seq<char>, Seq<Seq<char>>> {
    if val.len() > max {
        add_message(m, field, max_len_message(field, max))
    } else {
        m
    }
}

pub open spec fn rule_same(m: Map<Seq<char>, Seq<Seq<char>>>, field: Seq<char>, val: Seq<char>, other: Seq<char>) -> Map<Seq<char>, Seq<Seq<char>>> {
    if val != other {
        add_message(m, field, same_message(field))
    } else {
        m
    }
}

/// `ValidationErrors::new()`: no messages.
#[verifier::external_body]
pub(crate) fn new_errors() -> (r: rok_validate::ValidationErrors)
    ensures
        validation_messages(r) == no_messages(),
{
    rok_validate::ValidationErrors::new()
}

/// `ValidationErrors::is_empty()`: whether no message was recorded.
#[verifier::external_body]
pub(crate) fn errors_empty(e: &rok_validate::ValidationErrors) -> (r: bool)
    ensures
        r == (validation_messages(*e) == no_messages()),
{
    e.is_empty()
}

/// `rok_validate::rules::check_required_str`: records a message when the
/// value is only white space.
#[verifier::external_body]
pub(crate) fn check_required(val: &str, field: &str, errors: &mut rok_validate::ValidationErrors)
    ensures
        validation_messages(*final(errors)) == rule_required(
            validation_messages(*old(errors)),
            field@,
            val@,
        ),
{
    rok_validate::rules::check_required_str(val, field, errors)
}

/// `rok_validate::rules::check_email`: records a message unless the value
/// has a non-empty part before its first `@` and a dotted domain after it.
#[verifier::external_body]
pub(crate) fn check_email(val: &str, field: &str, errors: &mut rok_validate::ValidationErrors)
    ensures
        validation_messages(*final(errors)) == rule_email(
            validation_messages(*old(errors)),
            field@,
            val@,
        ),
{
    rok_validate::rules::check_email(val, field, errors)
}

/// `rok_validate::rules::check_min_len`: records a message when the value
/// has fewer than `min` characters.
#[verifier::external_body]
pub(crate) fn check_min_len(val: &str, min: usize, field: &str, errors: &mut rok_validate::ValidationErrors)
    ensures
        validation_messages(*final(errors)) == rule_min_len(
            validation_messages(*old(errors)),
            field@,
            val@,
            min as nat,
        ),
{
    rok_validate::rules::check_min_len(val, min, field, errors)
}

/// `rok_validate::rules::check_max_len`: records a message when the value
/// has more than `max` characters.
#[verifier::external_body]
pub(crate) fn check_max_len(val: &str, max: usize, field: &str, errors: &mut rok_validate::ValidationErrors)
    ensures
        validation_messages(*final(errors)) == rule_max_len(
            validation_messages(*old(errors)),
            field@,
            val@,
            max as nat,
        ),
{
    rok_validate::rules::check_max_len(val, max, field, errors)
}

/// `rok_validate::rules::check_same`: records a message when the value
/// differs from `other`.
#[verifier::external_body]
pub(crate) fn check_same(val: &str, other: &str, field: &str, errors: &mut rok_validate::ValidationErrors)
    ensures
        validation_messages(*final(errors)) == rule_same(
            validation_messages(*old(errors)),
            field@,
            val@,
            other@,
        ),
{
    rok_validate::rules::check_same(val, other, field, errors)
}

/// Adding a message leaves the map non-empty.
pub broadcast proof fn lemma_add_message_non_empty(
    m: Map<Seq<char>, Seq<Seq<char>>>,
    field: Seq<char>,
    msg: Seq<char>,
)
    ensures
        #[trigger] add_message(m, field, msg) != no_messages(),
{
    assert(add_message(m, field, msg).contains_key(field));
    assert(!no_messages().contains_key(field));
}

} // verus!
