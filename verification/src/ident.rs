//! Random identifiers: ids of users and rooms, and ids of sessions.

use crate::codec::{encode_bytes, encoded, text_of, ID_ALPHABET};
use crate::validate::{group_texts, regex_captures, UID_FILTERING_PATTERN};
use rand::rngs::StdRng;
use rand::{RngCore, SeedableRng};
use rand_chacha::ChaCha20Rng;
use vstd::prelude::*;

verus! {

/// The ChaCha generator of rand_chacha, carried as it is.
#[verifier::external_type_specification]
#[verifier::external_body]
pub struct ExChaCha20Rng(ChaCha20Rng);

/// Calls `StdRng::try_from_os_rng` of rand and draws one word with
/// `next_u64`. `None` where the operating system gives no randomness.
/// Nothing is claimed of the word.
#[verifier::external_body]
fn os_seed() -> Option<u64> {
    match StdRng::try_from_os_rng() {
        Ok(mut rng) => Some(rng.next_u64()),
        Err(_) => None,
    }
}

/// Calls `ChaCha20Rng::seed_from_u64` of rand_chacha.
#[verifier::external_body]
fn chacha_seeded(seed: u64) -> ChaCha20Rng {
    ChaCha20Rng::seed_from_u64(seed)
}

/// Calls `next_u64` on a ChaCha generator. Nothing is claimed of the word.
#[verifier::external_body]
fn chacha_next(rng: &mut ChaCha20Rng) -> u64 {
    rng.next_u64()
}

/// Three random words folded into one.
pub open spec fn mixed(a: u64, b: u64, c: u64) -> u64 {
    a ^ (b & c)
}

/// The eight bytes of `w`, the most significant first.
pub open spec fn be_bytes(w: u64) -> Seq<u8> {
    seq![
        (w >> 56) as u8,
        (w >> 48) as u8,
        (w >> 40) as u8,
        (w >> 32) as u8,
        (w >> 24) as u8,
        (w >> 16) as u8,
        (w >> 8) as u8,
        w as u8,
    ]
}

/// Appends the eight bytes of the fold of three words to `out`.
pub fn push_mixed(out: &mut Vec<u8>, a: u64, b: u64, c: u64)
    ensures
        final(out)@ == old(out)@ + be_bytes(mixed(a, b, c)),
{
    let w: u64 = a ^ (b & c);
    out.push(#[verifier::truncate] ((w >> 56) as u8));
    out.push(#[verifier::truncate] ((w >> 48) as u8));
    out.push(#[verifier::truncate] ((w >> 40) as u8));
    out.push(#[verifier::truncate] ((w >> 32) as u8));
    out.push(#[verifier::truncate] ((w >> 24) as u8));
    out.push(#[verifier::truncate] ((w >> 16) as u8));
    out.push(#[verifier::truncate] ((w >> 8) as u8));
    out.push(#[verifier::truncate] (w as u8));
    assert(out@ =~= old(out)@ + be_bytes(mixed(a, b, c)));
}

/// The bytes that a run of triples of words is folded into: for each triple
/// the eight bytes of its fold, in the order of the triples.
pub open spec fn folded(words: Seq<(u64, u64, u64)>) -> Seq<u8>
    decreases words.len(),
{
    if words.len() == 0 {
        Seq::empty()
    } else {
        folded(words.drop_last()) + be_bytes(
            mixed(words.last().0, words.last().1, words.last().2),
        )
    }
}

/// Whether `bytes` are what `groups` triples of words are folded into.
pub open spec fn is_folding(bytes: Seq<u8>, groups: nat) -> bool {
    exists|words: Seq<(u64, u64, u64)>| words.len() == groups && #[trigger] folded(words) == bytes
}

/// `groups` times eight random bytes: three words are drawn from `rng` for
/// each group and folded into its eight bytes.
fn random_bytes(rng: &mut ChaCha20Rng, groups: usize) -> (bytes: Vec<u8>)
    requires
        groups <= 1024,
    ensures
        bytes@.len() == 8 * groups,
        is_folding(bytes@, groups as nat),
{
    let mut bytes: Vec<u8> = Vec::new();
    let ghost mut words: Seq<(u64, u64, u64)> = Seq::empty();
    let mut i: usize = 0;
    while i < groups
        invariant
            i <= groups <= 1024,
            bytes@.len() == 8 * i,
            words.len() == i,
            folded(words) == bytes@,
        decreases groups - i,
    {
        let a = chacha_next(rng);
        let b = chacha_next(rng);
        let c = chacha_next(rng);
        push_mixed(&mut bytes, a, b, c);
        proof {
            let longer = words.push((a, b, c));
            assert(longer.drop_last() =~= words);
            words = longer;
        }
        i += 1;
    }
    bytes
}

/// How many groups of eight random bytes go into the text a user id is
/// picked from.
pub const USER_ID_GROUPS: usize = 41;

/// How many groups of eight random bytes go into a session id.
pub const SESSION_ID_GROUPS: usize = 8;

/// How many characters a session id has.
pub const SESSION_ID_LEN: usize = 64;

/// The id that the capture groups of a match stand for: the texts of the
/// groups behind group 0, one after the other. `None` where there is no
/// group behind group 0 or one of them took no part in the match.
pub open spec fn picked_id(groups: Seq<Option<Seq<char>>>) -> Option<Seq<char>> {
    if groups.len() < 2 {
        None
    } else {
        concat_groups(groups.skip(1))
    }
}

/// The texts of `groups`, one after the other, or `None` where one is
/// missing.
pub open spec fn concat_groups(groups: Seq<Option<Seq<char>>>) -> Option<Seq<char>>
    decreases groups.len(),
{
    if groups.len() == 0 {
        Some(Seq::empty())
    } else {
        match (concat_groups(groups.drop_last()), groups.last()) {
            (Some(front), Some(last)) => Some(front + last),
            _ => None,
        }
    }
}

/// Computes [`picked_id`].
pub fn id_from_groups(groups: &Vec<Option<String>>) -> (r: Option<String>)
    ensures
        text_of(r) == picked_id(group_texts(groups@)),
{
    if groups.len() < 2 {
        return None;
    }
    let ghost rest = group_texts(groups@).skip(1);
    let mut id = String::new();
    let mut i: usize = 1;
    assert(rest.take(0) =~= Seq::<Option<Seq<char>>>::empty());
    while i < groups.len()
        invariant
            1 <= i <= groups.len(),
            rest == group_texts(groups@).skip(1),
            concat_groups(rest.take(i as int - 1)) == Some(id@),
        decreases groups.len() - i,
    {
        proof {
            let t = rest.take(i as int);
            assert(t.drop_last() =~= rest.take(i as int - 1));
            assert(t.last() == text_of(groups@[i as int]));
        }
        match &groups[i] {
            Some(part) => {
                let ghost before = id@;
                id.append(part.as_str());
                assert(id@ == before + part@);
            },
            None => {
                proof {
                    lemma_missing_group(rest, i as int);
                }
                return None;
            },
        }
        i += 1;
    }
    assert(rest.take(groups.len() as int - 1) =~= rest);
    Some(id)
}

proof fn lemma_missing_group(groups: Seq<Option<Seq<char>>>, n: int)
    requires
        0 < n <= groups.len(),
        concat_groups(groups.take(n)) is None,
    ensures
        concat_groups(groups) is None,
    decreases groups.len() - n,
{
    if n < groups.len() {
        let t = groups.take(n + 1);
        assert(t.drop_last() =~= groups.take(n));
        lemma_missing_group(groups, n + 1);
    } else {
        assert(groups.take(n) =~= groups);
    }
}

/// The user id inside `haystack`: see [`picked_id`] and
/// [`UID_FILTERING_PATTERN`].
pub open spec fn user_id_in(haystack: Seq<char>) -> Option<Seq<char>> {
    match crate::validate::regex_groups(UID_FILTERING_PATTERN@, haystack) {
        Some(groups) => picked_id(groups),
        None => None,
    }
}

/// Picks a user id out of random text: the first two letters, two digits
/// and three letters that follow one another in this order.
pub fn user_id_from(haystack: &str) -> (r: Option<String>)
    ensures
        text_of(r) == user_id_in(haystack@),
{
    match regex_captures(UID_FILTERING_PATTERN, haystack) {
        Some(groups) => id_from_groups(&groups),
        None => None,
    }
}

/// The first `n` characters of `text`, or `None` where it has fewer.
pub open spec fn prefix(text: Seq<char>, n: int) -> Option<Seq<char>> {
    if n <= text.len() {
        Some(text.take(n))
    } else {
        None
    }
}

/// Cuts a session id out of random text: its first 64 characters.
pub fn session_id_from(encoded: &str) -> (r: Option<String>)
    ensures
        text_of(r) == prefix(encoded@, SESSION_ID_LEN as int),
{
    if encoded.unicode_len() < SESSION_ID_LEN {
        None
    } else {
        let id = encoded.substring_char(0, SESSION_ID_LEN).to_owned();
        assert(id@ =~= encoded@.take(SESSION_ID_LEN as int));
        Some(id)
    }
}

/// The random part of an answer of the web randomness service: the
/// characters at places 9 to 52, or `None` where the answer is shorter.
pub open spec fn web_random_part(answer: Seq<char>) -> Option<Seq<char>> {
    if answer.len() >= 53 {
        Some(answer.subrange(9, 53))
    } else {
        None
    }
}

/// Computes [`web_random_part`].
pub fn web_random_text(answer: &str) -> (r: Option<String>)
    ensures
        text_of(r) == web_random_part(answer@),
{
    if answer.unicode_len() < 53 {
        None
    } else {
        Some(answer.substring_char(9, 53).to_owned())
    }
}

/// Whether `text` is random text of `groups` groups: the base64 text under
/// [`ID_ALPHABET`] of bytes that `groups` triples of words are folded into.
pub open spec fn is_random_text(text: Seq<char>, groups: nat) -> bool {
    exists|bytes: Seq<u8>|
        is_folding(bytes, groups) && #[trigger] encoded(ID_ALPHABET@, bytes) == Some(text)
}

/// Whether `id` is the id of a user or a room as it is drawn: the id picked
/// from random text of [`USER_ID_GROUPS`] groups.
pub open spec fn is_user_id(id: Seq<char>) -> bool {
    exists|haystack: Seq<char>|
        is_random_text(haystack, USER_ID_GROUPS as nat) && #[trigger] user_id_in(haystack) == Some(
            id,
        )
}

/// Whether `id` is the id of a session as it is drawn: the first
/// [`SESSION_ID_LEN`] characters of random text of [`SESSION_ID_GROUPS`]
/// groups.
pub open spec fn is_session_id(id: Seq<char>) -> bool {
    exists|text: Seq<char>|
        is_random_text(text, SESSION_ID_GROUPS as nat) && #[trigger] prefix(
            text,
            SESSION_ID_LEN as int,
        ) == Some(id)
}

/// A session id has exactly [`SESSION_ID_LEN`] characters.
pub proof fn lemma_session_id_len(id: Seq<char>)
    requires
        is_session_id(id),
    ensures
        id.len() == SESSION_ID_LEN,
{
    let text = choose|text: Seq<char>|
        is_random_text(text, SESSION_ID_GROUPS as nat) && #[trigger] prefix(
            text,
            SESSION_ID_LEN as int,
        ) == Some(id);
    assert(id == text.take(SESSION_ID_LEN as int));
}

/// Random text of `groups` groups: a seed is taken from the operating
/// system, three words are drawn for each group from a ChaCha generator
/// under that seed and folded into eight bytes, and the bytes are written
/// in base64 under [`ID_ALPHABET`]. `None` where the operating system gives
/// no randomness or the bytes cannot be written.
fn random_text(groups: usize) -> (r: Option<String>)
    requires
        groups <= 1024,
    ensures
        r matches Some(text) ==> is_random_text(text@, groups as nat),
{
    let seed = match os_seed() {
        Some(seed) => seed,
        None => { return None; },
    };
    let mut rng = chacha_seeded(seed);
    let bytes = random_bytes(&mut rng, groups);
    let text = encode_bytes(ID_ALPHABET, &bytes);
    proof {
        if text is Some {
            assert(is_folding(bytes@, groups as nat) && encoded(ID_ALPHABET@, bytes@) == Some(
                text->0@,
            ));
        }
    }
    text
}

/// A fresh id for a user or a room: random text is drawn up to `attempts`
/// times, and the first text that holds an id gives it. `None` where no
/// randomness is to be had or none of the texts holds an id; without an
/// attempt nothing is drawn.
pub fn random_user_id(attempts: u32) -> (r: Option<String>)
    ensures
        r matches Some(id) ==> is_user_id(id@),
        attempts == 0 ==> r is None,
{
    let mut left: u32 = attempts;
    while left > 0
        invariant
            left <= attempts,
        decreases left,
    {
        let haystack = match random_text(USER_ID_GROUPS) {
            Some(text) => text,
            None => { return None; },
        };
        match user_id_from(haystack.as_str()) {
            Some(id) => {
                assert(is_random_text(haystack@, USER_ID_GROUPS as nat) && user_id_in(haystack@)
                    == Some(id@));
                return Some(id);
            },
            None => {},
        }
        left -= 1;
    }
    None
}

/// A fresh session id: the first 64 characters of random text. `None` where
/// no randomness is to be had.
pub fn random_session_id() -> (r: Option<String>)
    ensures
        r matches Some(id) ==> is_session_id(id@) && id@.len() == SESSION_ID_LEN,
{
    match random_text(SESSION_ID_GROUPS) {
        Some(text) => {
            let id = session_id_from(text.as_str());
            proof {
                if id is Some {
                    assert(is_random_text(text@, SESSION_ID_GROUPS as nat) && prefix(
                        text@,
                        SESSION_ID_LEN as int,
                    ) == Some(id->0@));
                    lemma_session_id_len(id->0@);
                }
            }
            id
        },
        None => None,
    }
}

} // verus!
