use vstd::prelude::*;
use vstd::slice::slice_to_vec;
use vstd::string::*;

use crate::decimal::{
    all_ascii_digits, decimal_text, decimal_value, digit_value, is_ascii_digit,
    lemma_decimal_text_round_trip, lemma_decimal_value_prefix, push_decimal,
};
use crate::error::FaceTimeIdsQuicError;
use crate::text::push_str;

verus! {

/// What participant data holds under the participant-ID-alias key, as far as
/// decoding reads it.
pub enum ParticipantAliasEntry {
    /// The data is not a property list, or its top level is not a dictionary.
    Unreadable,
    /// The dictionary has no entry under the key.
    Missing,
    /// The entry is a string with this text.
    Text(String),
    /// The entry is not a string; `Some` holds its value where it is an
    /// integer that fits in a `u64`.
    NonText(Option<u64>),
}

/// What participant data holds under a key, with the text as characters.
pub enum AliasEntryView {
    Unreadable,
    Missing,
    Text(Seq<char>),
    NonText(Option<u64>),
}

impl ParticipantAliasEntry {
    /// The entry with its text taken as characters.
    pub open spec fn entry_view(self) -> AliasEntryView {
        match self {
            ParticipantAliasEntry::Unreadable => AliasEntryView::Unreadable,
            ParticipantAliasEntry::Missing => AliasEntryView::Missing,
            ParticipantAliasEntry::Text(text) => AliasEntryView::Text(text@),
            ParticipantAliasEntry::NonText(value) => AliasEntryView::NonText(value),
        }
    }
}

/// What the `plist` crate reads from `raw` under `key`: whether the bytes are
/// a property list whose top level is a dictionary, whether it has an entry
/// under the key, and that entry's text or unsigned value.
pub uninterp spec fn plist_alias_entry(raw: Seq<u8>, key: Seq<char>) -> AliasEntryView;

/// Reads what a property list holds under a key.
///
/// Trusted: `plist::Value::from_reader` over the bytes, then
/// `Value::as_dictionary`, `Dictionary::get`, `Value::as_string` and
/// `Value::as_unsigned_integer` on what it read; the outcome, a function of
/// the bytes and the key alone, is named by `plist_alias_entry`.
#[verifier::external_body]
fn read_alias_entry(raw: &[u8], key: &str) -> (entry: ParticipantAliasEntry)
    ensures
        entry.entry_view() == plist_alias_entry(raw@, key@),
{
    let Ok(value) = plist::Value::from_reader(std::io::Cursor::new(raw)) else {
        return ParticipantAliasEntry::Unreadable;
    };
    let Some(dictionary) = value.as_dictionary() else {
        return ParticipantAliasEntry::Unreadable;
    };
    match dictionary.get(key) {
        None => ParticipantAliasEntry::Missing,
        Some(alias) => match alias.as_string() {
            Some(text) => ParticipantAliasEntry::Text(text.to_owned()),
            None => ParticipantAliasEntry::NonText(alias.as_unsigned_integer()),
        },
    }
}

/// The participant ID alias that a string denotes: a non-empty run of ASCII
/// digits read in base ten, which must fit in a `u64`.
pub open spec fn alias_from_text(text: Seq<char>) -> Result<u64, FaceTimeIdsQuicError> {
    if text.len() == 0 || !all_ascii_digits(text) {
        Err(FaceTimeIdsQuicError::InvalidParticipantIdAlias)
    } else if decimal_value(text) > u64::MAX {
        Err(FaceTimeIdsQuicError::ParticipantIdAliasOutOfRange)
    } else {
        Ok(decimal_value(text) as u64)
    }
}

/// An alias written as decimal text is read back as that alias.
pub proof fn lemma_decimal_alias_round_trip(alias: u64)
    ensures
        alias_from_text(decimal_text(alias as nat)) == Ok::<u64, FaceTimeIdsQuicError>(alias),
{
    lemma_decimal_text_round_trip(alias as nat);
}

/// The participant ID alias that an entry of participant data gives, or why
/// it gives none.
pub open spec fn alias_from_view(entry: AliasEntryView) -> Result<u64, FaceTimeIdsQuicError> {
    match entry {
        AliasEntryView::Unreadable => Err(FaceTimeIdsQuicError::MalformedParticipantData),
        AliasEntryView::Missing => Err(FaceTimeIdsQuicError::MissingParticipantIdAlias),
        AliasEntryView::Text(text) => alias_from_text(text),
        AliasEntryView::NonText(Some(value)) => Ok(value),
        AliasEntryView::NonText(None) => Err(FaceTimeIdsQuicError::InvalidParticipantIdAlias),
    }
}

/// The participant ID alias that an entry of participant data gives, or why
/// it gives none.
pub open spec fn alias_from_entry(entry: ParticipantAliasEntry) -> Result<u64, FaceTimeIdsQuicError> {
    alias_from_view(entry.entry_view())
}

/// Reads a participant ID alias written as decimal text.
pub fn participant_id_alias_from_text(text: &str) -> (r: Result<u64, FaceTimeIdsQuicError>)
    ensures
        r == alias_from_text(text@),
{
    let n = text.unicode_len();
    if n == 0 {
        return Err(FaceTimeIdsQuicError::InvalidParticipantIdAlias);
    }
    let mut i: usize = 0;
    while i < n
        invariant
            n == text@.len(),
            i <= n,
            forall|j: int| 0 <= j < i ==> is_ascii_digit(#[trigger] text@[j]),
        decreases n - i,
    {
        let c = text.get_char(i);
        if !('0' <= c && c <= '9') {
            return Err(FaceTimeIdsQuicError::InvalidParticipantIdAlias);
        }
        i = i + 1;
    }
    assert(all_ascii_digits(text@));
    let mut value: u64 = 0;
    let mut k: usize = 0;
    while k < n
        invariant
            n == text@.len(),
            k <= n,
            all_ascii_digits(text@),
            value as nat == decimal_value(text@.take(k as int)),
        decreases n - k,
    {
        let c = text.get_char(k);
        assert(is_ascii_digit(text@[k as int]));
        let d: u64 = (c as u32 - 48) as u64;
        assert(d == digit_value(c));
        assert(text@.take(k + 1).drop_last() =~= text@.take(k as int));
        assert(decimal_value(text@.take(k + 1)) == decimal_value(text@.take(k as int)) * 10 + d);
        match value.checked_mul(10) {
            Some(tens) => match tens.checked_add(d) {
                Some(next) => {
                    value = next;
                },
                None => {
                    proof {
                        lemma_decimal_value_prefix(text@, k + 1);
                    }
                    return Err(FaceTimeIdsQuicError::ParticipantIdAliasOutOfRange);
                },
            },
            None => {
                proof {
                    lemma_decimal_value_prefix(text@, k + 1);
                }
                return Err(FaceTimeIdsQuicError::ParticipantIdAliasOutOfRange);
            },
        }
        k = k + 1;
    }
    assert(text@.take(n as int) =~= text@);
    Ok(value)
}

/// Gives the participant ID alias of an entry of participant data.
pub fn participant_id_alias_from_entry(entry: &ParticipantAliasEntry) -> (r: Result<u64, FaceTimeIdsQuicError>)
    ensures
        r == alias_from_entry(*entry),
{
    match entry {
        ParticipantAliasEntry::Unreadable => Err(FaceTimeIdsQuicError::MalformedParticipantData),
        ParticipantAliasEntry::Missing => Err(FaceTimeIdsQuicError::MissingParticipantIdAlias),
        ParticipantAliasEntry::Text(text) => participant_id_alias_from_text(text.as_str()),
        ParticipantAliasEntry::NonText(Some(value)) => Ok(*value),
        ParticipantAliasEntry::NonText(None) => Err(FaceTimeIdsQuicError::InvalidParticipantIdAlias),
    }
}

/// The media bundle of a participant, as announced in command-207 data.
#[derive(Clone, PartialEq, Eq)]
pub struct FaceTimeParticipantMediaBundle {
    pub participant_id_alias: u64,
    pub raw_participant_data: Vec<u8>,
}

/// The text that a bundle shows of itself: the alias and only the length of
/// the raw participant data.
pub open spec fn bundle_debug_text(participant_id_alias: u64, raw_length: nat) -> Seq<char> {
    "FaceTimeParticipantMediaBundle { participant_id_alias: "@ + decimal_text(
        participant_id_alias as nat,
    ) + ", raw_participant_data_length: "@ + decimal_text(raw_length) + " }"@
}

/// In a bundle's text, the alias and the length of the raw participant data
/// each read back as the number they show, and the text holds nothing else
/// but its fixed words.
pub proof fn lemma_bundle_text_shows_alias_and_length(participant_id_alias: u64, raw_length: nat)
    ensures
        ({
            let t = bundle_debug_text(participant_id_alias, raw_length);
            let head = "FaceTimeParticipantMediaBundle { participant_id_alias: "@;
            let middle = ", raw_participant_data_length: "@;
            let a = head.len() as int;
            let b = a + decimal_text(participant_id_alias as nat).len();
            let c = b + middle.len();
            &&& t.subrange(0, a) == head
            &&& t.subrange(b, c) == middle
            &&& t.len() >= c + 2
            &&& t.subrange(t.len() - 2, t.len() as int) == " }"@
            &&& all_ascii_digits(t.subrange(a, b))
            &&& decimal_value(t.subrange(a, b)) == participant_id_alias
            &&& all_ascii_digits(t.subrange(c, t.len() - 2))
            &&& decimal_value(t.subrange(c, t.len() - 2)) == raw_length
        }),
{
    reveal_strlit("FaceTimeParticipantMediaBundle { participant_id_alias: ");
    reveal_strlit(", raw_participant_data_length: ");
    reveal_strlit(" }");
    lemma_decimal_text_round_trip(participant_id_alias as nat);
    lemma_decimal_text_round_trip(raw_length);
    let head = "FaceTimeParticipantMediaBundle { participant_id_alias: "@;
    let ad = decimal_text(participant_id_alias as nat);
    let middle = ", raw_participant_data_length: "@;
    let ld = decimal_text(raw_length);
    let tail = " }"@;
    let t = bundle_debug_text(participant_id_alias, raw_length);
    assert(t =~= head + ad + middle + ld + tail);
    let a = head.len() as int;
    let b = a + ad.len();
    let c = b + middle.len();
    assert(t.subrange(0, a) =~= head);
    assert(t.subrange(a, b) =~= ad);
    assert(t.subrange(b, c) =~= middle);
    assert(t.subrange(c, t.len() - 2) =~= ld);
    assert(t.subrange(t.len() - 2, t.len() as int) =~= tail);
}

impl FaceTimeParticipantMediaBundle {
    /// Decodes command-207 participant data: a property-list dictionary whose
    /// `participantIDAlias` entry is a non-negative integer, or decimal text
    /// of one that fits in a `u64`. The raw data is kept as it came.
    pub fn decode(raw_participant_data: &[u8]) -> (r: Result<Self, FaceTimeIdsQuicError>)
        ensures
            r is Ok <==> alias_from_view(
                plist_alias_entry(raw_participant_data@, "participantIDAlias"@),
            ) is Ok,
            r matches Ok(bundle) ==> {
                &&& alias_from_view(plist_alias_entry(raw_participant_data@, "participantIDAlias"@))
                    == Ok::<u64, FaceTimeIdsQuicError>(bundle.participant_id_alias)
                &&& bundle.raw_participant_data@ == raw_participant_data@
            },
            r matches Err(e) ==> alias_from_view(
                plist_alias_entry(raw_participant_data@, "participantIDAlias"@),
            ) == Err::<u64, _>(e),
    {
        let entry = read_alias_entry(raw_participant_data, "participantIDAlias");
        Self::from_alias_entry(raw_participant_data, &entry)
    }

    /// Builds the bundle of participant data from what the data holds under
    /// the participant-ID-alias key.
    pub fn from_alias_entry(raw_participant_data: &[u8], entry: &ParticipantAliasEntry) -> (r: Result<
        Self,
        FaceTimeIdsQuicError,
    >)
        ensures
            r is Ok <==> alias_from_entry(*entry) is Ok,
            r matches Ok(bundle) ==> {
                &&& alias_from_entry(*entry) == Ok::<u64, FaceTimeIdsQuicError>(bundle.participant_id_alias)
                &&& bundle.raw_participant_data@ == raw_participant_data@
            },
            r matches Err(e) ==> alias_from_entry(*entry) == Err::<u64, _>(e),
    {
        let participant_id_alias = participant_id_alias_from_entry(entry)?;
        Ok(FaceTimeParticipantMediaBundle {
            participant_id_alias,
            raw_participant_data: slice_to_vec(raw_participant_data),
        })
    }

    /// The text that the bundle shows of itself, which leaves out the raw
    /// participant data but for its length.
    pub fn debug_text(&self) -> (text: String)
        ensures
            text@ == bundle_debug_text(
                self.participant_id_alias,
                self.raw_participant_data@.len(),
            ),
    {
        let mut text = String::from_str("FaceTimeParticipantMediaBundle { participant_id_alias: ");
        push_decimal(&mut text, self.participant_id_alias);
        push_str(&mut text, ", raw_participant_data_length: ");
        push_decimal(&mut text, self.raw_participant_data.len() as u64);
        push_str(&mut text, " }");
        text
    }
}

} // verus!
