//! The tri-state rule for optional, independently editable fields, and
//! the compute parts of the basic and optional field edit flows.
//!
//! Every optional field distinguishes unset, set, and explicitly cleared:
//! blank input leaves an unset field unset and clears a set one; non-blank
//! input stores the trimmed text. Because the edit flow pre-fills each
//! prompt with the stored value, re-submitting the pre-filled value keeps
//! the field exactly as it was.

use vstd::prelude::*;
use vstd::string::*;
use crate::errors::AppError;
use crate::numbers::{all_digits, is_digit_char, nat_to_digits, lemma_digits_roundtrip, parse_usize, seq_to_nat};
use crate::provider::{provider_wf, OptionalFields, Provider};
use crate::text::{is_trimmed, lemma_trim_of_spaceless, trim_spec, trim_string};

verus! {

/// What an optional field holds after an edit that submitted `input`:
/// nothing when the trimmed input is empty, else the trimmed input.
pub open spec fn tristate_spec(input: Seq<char>) -> Option<Seq<char>> {
    if trim_spec(input).len() == 0 {
        None
    } else {
        Some(trim_spec(input))
    }
}

/// The text an edit prompt is pre-filled with: the stored value, or
/// nothing.
pub open spec fn opt_prefill(o: Option<Seq<char>>) -> Seq<char> {
    match o {
        Some(v) => v,
        None => Seq::empty(),
    }
}

/// A stored optional text field is either absent or trimmed and
/// non-empty.
pub open spec fn opt_text_wf(o: Option<Seq<char>>) -> bool {
    match o {
        Some(v) => is_trimmed(v) && v.len() > 0,
        None => true,
    }
}

/// Applies the tri-state rule to one submitted field value.
pub fn tristate_field(input: &String) -> (r: Option<String>)
    ensures
        r.deep_view() == tristate_spec(input@),
{
    let t = trim_string(input);
    if t.unicode_len() == 0 {
        None
    } else {
        Some(t)
    }
}

/// Law: re-submitting the pre-filled value of an optional field leaves
/// the field unchanged — an unset field stays unset, a set field keeps
/// its exact value.
pub proof fn lemma_tristate_prefill_identity(o: Option<Seq<char>>)
    requires
        opt_text_wf(o),
    ensures
        tristate_spec(opt_prefill(o)) == o,
{
    match o {
        Some(v) => {
            assert(trim_spec(v) == v);
        },
        None => {
            lemma_trim_of_spaceless(Seq::empty());
        },
    }
}

/// Law: applying the tri-state rule twice is the same as applying it
/// once — feeding a field's own stored value back in never changes it.
pub proof fn lemma_tristate_idempotent(input: Seq<char>)
    ensures
        tristate_spec(opt_prefill(tristate_spec(input))) == tristate_spec(input),
{
    crate::text::lemma_trim_idempotent(input);
    lemma_tristate_prefill_identity(tristate_spec(input));
}

/// The compute part of the basic-field edit flow: the name is required
/// and stored trimmed; the website URL follows the tri-state rule.
/// Fails exactly when the name is blank.
pub fn basic_fields_from_input(name_input: &String, website_input: &String) -> (r: Result<
    (String, Option<String>),
    AppError,
>)
    ensures
        match r {
            Ok(p) => trim_spec(name_input@).len() > 0 && p.0@ == trim_spec(name_input@)
                && p.1.deep_view() == tristate_spec(website_input@),
            Err(e) => trim_spec(name_input@).len() == 0 && e is InvalidInput,
        },
{
    let name = trim_string(name_input);
    if name.unicode_len() == 0 {
        return Err(AppError::InvalidInput(String::from_str("provider name must not be empty")));
    }
    let website_url = tristate_field(website_input);
    Ok((name, website_url))
}

/// Whether trimmed text is acceptable as a sort index: decimal digits
/// denoting a value that fits the machine word.
pub open spec fn sort_index_ok(t: Seq<char>) -> bool {
    all_digits(t) && seq_to_nat(t) <= usize::MAX
}

/// The compute part of the optional-field edit flow: notes follow the
/// tri-state rule; a blank sort index is unset, a non-blank one must be a
/// non-negative integer. Display hints are not populated by the edit
/// flow. Fails exactly when a non-blank sort index does not parse.
pub fn optional_fields_from_input(notes_input: &String, sort_index_input: &String) -> (r: Result<
    OptionalFields,
    AppError,
>)
    ensures
        match r {
            Ok(o) => {
                &&& o.notes.deep_view() == tristate_spec(notes_input@)
                &&& o.icon is None
                &&& o.icon_color is None
                &&& match o.sort_index {
                    None => trim_spec(sort_index_input@).len() == 0,
                    Some(v) => trim_spec(sort_index_input@).len() > 0 && sort_index_ok(
                        trim_spec(sort_index_input@),
                    ) && v as nat == seq_to_nat(trim_spec(sort_index_input@)),
                }
            },
            Err(e) => {
                &&& e is InvalidInput
                &&& trim_spec(sort_index_input@).len() > 0
                &&& !sort_index_ok(trim_spec(sort_index_input@))
            },
        },
{
    let notes = tristate_field(notes_input);
    let t = trim_string(sort_index_input);
    let sort_index: Option<usize> = if t.unicode_len() == 0 {
        None
    } else {
        match parse_usize(t.as_str()) {
            Some(v) => Some(v),
            None => {
                return Err(
                    AppError::InvalidInput(
                        String::from_str("sort index must be a non-negative integer"),
                    ),
                );
            },
        }
    };
    Ok(OptionalFields { notes, icon: None, icon_color: None, sort_index })
}

/// Law: for a well-formed profile, re-submitting every pre-filled flat
/// field reproduces it exactly — the trimmed name is unchanged, and the
/// optional website and notes fields survive a pre-filled edit as they
/// are.
pub proof fn lemma_profile_prefill_identity(p: Provider)
    requires
        provider_wf(p),
    ensures
        trim_spec(p.name@) == p.name@,
        tristate_spec(opt_prefill(p.website_url.deep_view())) == p.website_url.deep_view(),
        tristate_spec(opt_prefill(p.notes.deep_view())) == p.notes.deep_view(),
{
    lemma_tristate_prefill_identity(p.website_url.deep_view());
    lemma_tristate_prefill_identity(p.notes.deep_view());
}

/// Law: the pre-filled rendering of a stored sort index parses back to
/// the same value — re-submitting it leaves the field unchanged.
pub proof fn lemma_sort_prefill_identity(n: usize)
    ensures
        trim_spec(nat_to_digits(n as nat)) == nat_to_digits(n as nat),
        nat_to_digits(n as nat).len() > 0,
        sort_index_ok(nat_to_digits(n as nat)),
        seq_to_nat(nat_to_digits(n as nat)) == n as nat,
{
    lemma_digits_roundtrip(n as nat);
    let d = nat_to_digits(n as nat);
    assert forall|i: int| 0 <= i < d.len() implies !crate::text::is_space_char(d[i]) by {
        assert(is_digit_char(d[i]));
    }
    lemma_trim_of_spaceless(d);
}

} // verus!
