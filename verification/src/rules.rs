//! The checks that every request message goes through: which texts must be
//! there, how long they may be, and how a refusal is told.

use vstd::prelude::*;
use vstd::string::*;
use crate::error::{ErrorCode, ServiceError};
use crate::outside::{char_is_numeric, is_numeric_char};
use crate::text::{byte_len, len};

verus! {

/// Whether `r` refuses the request as an invalid argument with the message `message`.
pub open spec fn rejected<T>(r: Result<T, ServiceError>, message: Seq<char>) -> bool {
    r matches Err(e) && e.is(ErrorCode::InvalidArgument, message)
}

/// Whether a text that must be there is there and takes at most `max` bytes.
pub open spec fn text_ok(s: Seq<char>, max: nat) -> bool {
    s.len() != 0 && byte_len(s) <= max
}

/// Whether a text that may be left empty takes at most `max` bytes.
pub open spec fn optional_ok(s: Seq<char>, max: nat) -> bool {
    s.len() == 0 || byte_len(s) <= max
}

/// A text that may be left empty: nothing where it is empty.
pub open spec fn optional(s: String) -> Option<String> {
    if s@.len() == 0 {
        None
    } else {
        Some(s)
    }
}

/// What a text that may be missing reads as: empty where it is missing.
pub open spec fn text_or_empty(o: Option<String>) -> Seq<char> {
    match o {
        Some(s) => s@,
        None => Seq::empty(),
    }
}

/// A check: nothing where `ok` holds, else the refusal `message`.
pub open spec fn unless(ok: bool, message: Seq<char>) -> Option<Seq<char>> {
    if ok {
        None
    } else {
        Some(message)
    }
}

/// Checks that are made one after the other.
pub trait Checks: Sized {
    /// The refusal of `self` where it refuses, else that of `next`.
    spec fn otherwise(self, next: Self) -> Self;
}

impl Checks for Option<Seq<char>> {
    open spec fn otherwise(self, next: Self) -> Self {
        match self {
            Some(message) => Some(message),
            None => next,
        }
    }
}

/// Whether every item of `items` names a value.
pub open spec fn all_named<E>(items: Seq<Option<E>>) -> bool {
    forall|i: int| 0 <= i < items.len() ==> (#[trigger] items[i]) is Some
}

/// Whether `list` holds the values that the items of `items` name, in order.
pub open spec fn are_named<E>(list: Seq<E>, items: Seq<Option<E>>) -> bool {
    list.len() == items.len() && forall|i: int| 0 <= i < list.len() ==> items[i] == Some(#[trigger] list[i])
}

/// The values that the items name; refused with `message` where one names none.
pub fn named<E>(items: Vec<Option<E>>, message: &str) -> (r: Result<Vec<E>, ServiceError>)
    ensures
        if all_named(items@) {
            r matches Ok(list) && are_named(list@, items@)
        } else {
            rejected(r, message@)
        },
{
    let mut list: Vec<E> = Vec::new();
    let ghost all = items@;
    for item in it: items
        invariant
            it.seq() == all,
            list@.len() == it.index(),
            forall|j: int| 0 <= j < it.index() ==> all[j] == Some(#[trigger] list@[j]),
    {
        match item {
            Some(v) => {
                list.push(v);
            },
            None => {
                return invalid_argument(message);
            },
        }
    }
    assert forall|i: int| 0 <= i < all.len() implies (#[trigger] all[i]) is Some by {
        assert(all[i] == Some(list@[i]));
    }
    Ok(list)
}

/// Refuses the request as an invalid argument.
pub fn invalid_argument<T>(message: &str) -> (r: Result<T, ServiceError>)
    ensures
        rejected(r, message@),
{
    Err(ServiceError::invalid_argument(message))
}

/// Whether a text that must be there is there and takes at most `max` bytes.
pub fn required_text(s: &str, max: usize) -> (r: bool)
    ensures
        r == text_ok(s@, max as nat),
{
    !s.is_empty() && len(s) <= max
}

/// Whether a text that may be left empty takes at most `max` bytes.
pub fn optional_text(s: &str, max: usize) -> (r: bool)
    ensures
        r == optional_ok(s@, max as nat),
{
    s.is_empty() || len(s) <= max
}

/// A text that may be left empty: nothing where it is empty.
pub fn non_empty(s: String) -> (r: Option<String>)
    ensures
        r == optional(s),
{
    if s.as_str().is_empty() {
        None
    } else {
        Some(s)
    }
}

/// A text that may be missing: empty where it is missing.
pub fn or_empty(o: Option<String>) -> (r: String)
    ensures
        r@ == text_or_empty(o),
{
    match o {
        Some(s) => s,
        None => String::new(),
    }
}

/// Why a list is refused, if it is: the rejection of the first item that is refused.
pub open spec fn first_rejection<T>(items: Seq<T>, rejection: spec_fn(T) -> Option<Seq<char>>) -> Option<
    Seq<char>,
>
    decreases items.len(),
{
    if items.len() == 0 {
        None
    } else {
        match rejection(items[0]) {
            Some(message) => Some(message),
            None => first_rejection(items.drop_first(), rejection),
        }
    }
}

/// A list is refused for its first refused item, and accepted where no item is refused.
pub proof fn lemma_first_rejection<T>(items: Seq<T>, rejection: spec_fn(T) -> Option<Seq<char>>, i: int)
    requires
        0 <= i <= items.len(),
        forall|j: int| 0 <= j < i ==> rejection(#[trigger] items[j]) is None,
    ensures
        i < items.len() && rejection(items[i]) is Some ==> first_rejection(items, rejection) == rejection(
            items[i],
        ),
        i == items.len() ==> first_rejection(items, rejection) is None,
    decreases items.len(),
{
    if items.len() > 0 && i > 0 {
        let rest = items.drop_first();
        assert(forall|j: int| 0 <= j < i - 1 ==> rejection(#[trigger] rest[j]) is None);
        lemma_first_rejection(rest, rejection, i - 1);
    }
}

/// Whether every character of `s` is numeric.
pub open spec fn spec_all_numeric(s: Seq<char>) -> bool {
    forall|i: int| 0 <= i < s.len() ==> is_numeric_char(#[trigger] s[i])
}

/// Whether every character of `s` is numeric.
pub fn all_numeric(s: &str) -> (r: bool)
    ensures
        r == spec_all_numeric(s@),
{
    for c in it: s.chars()
        invariant
            it.seq() == s@,
            forall|j: int| 0 <= j < it.index() ==> is_numeric_char(#[trigger] s@[j]),
    {
        if !char_is_numeric(c) {
            return false;
        }
    }
    true
}

/// Whether every text of `items` takes at most `max` bytes.
pub open spec fn spec_all_within(items: Seq<String>, max: nat) -> bool {
    forall|i: int| 0 <= i < items.len() ==> byte_len((#[trigger] items[i])@) <= max
}

/// Whether every text of `items` takes at most `max` bytes.
pub fn all_within(items: &Vec<String>, max: usize) -> (r: bool)
    ensures
        r == spec_all_within(items@, max as nat),
{
    let mut i: usize = 0;
    while i < items.len()
        invariant
            i <= items.len(),
            forall|j: int| 0 <= j < i ==> byte_len((#[trigger] items@[j])@) <= max,
        decreases items.len() - i,
    {
        if len(items[i].as_str()) > max {
            return false;
        }
        i += 1;
    }
    true
}

} // verus!
