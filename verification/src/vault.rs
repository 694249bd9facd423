//! The decisions of the vault's commands, apart from the storage they run
//! against: who may ask, which fields are acceptable, how a failure is
//! worded for the user, how a listing is paged, and what is shown for a
//! field that does not decrypt.

use crate::cipher::{
    decrypt, decrypted, encrypt, encryption_key_for, lemma_accepted_inputs_fail_only_in_sealing,
    sealing_failure,
};
use crate::error::{CryptoError, Failure};
use crate::hashing::{verified, verify_password};
use crate::primitives::{contains_text, lowercase, lowercase_of, occurs_in};
use crate::user_state::{
    authenticated, entry_outcome, require_authentication, require_no_authentication,
    unauthenticated, unit_outcome, UserState,
};
use vstd::prelude::*;
use vstd::string::*;
use vstd::utf8::*;

verus! {

/// Number of records on one page of a listing.
pub const PAGE_SIZE: i32 = 6;

/// Whether a character is white space, as Unicode defines the property.
pub open spec fn is_white_space(c: char) -> bool {
    let code = c as u32;
    ||| 0x09 <= code <= 0x0D
    ||| code == 0x20
    ||| code == 0x85
    ||| code == 0xA0
    ||| code == 0x1680
    ||| 0x2000 <= code <= 0x200A
    ||| code == 0x2028
    ||| code == 0x2029
    ||| code == 0x202F
    ||| code == 0x205F
    ||| code == 0x3000
}

/// Whether a text holds nothing but white space.
pub open spec fn blank(text: Seq<char>) -> bool {
    forall|i: int| 0 <= i < text.len() ==> is_white_space(#[trigger] text[i])
}

/// Why the fields of a registration are refused, if they are: the user name
/// and the password must be filled in, and the password must be repeated
/// exactly.
pub open spec fn registration_refusal(
    username: Seq<char>,
    password: Seq<char>,
    confirm_password: Seq<char>,
) -> Option<Seq<char>> {
    if blank(username) {
        Some("Username cannot be empty"@)
    } else if blank(password) {
        Some("Password cannot be empty"@)
    } else if password != confirm_password {
        Some("Passwords do not match"@)
    } else {
        None
    }
}

/// Why the fields of a login are refused, if they are.
pub open spec fn login_refusal(username: Seq<char>, password: Seq<char>) -> Option<Seq<char>> {
    if blank(username) {
        Some("Username cannot be empty"@)
    } else if blank(password) {
        Some("Password cannot be empty"@)
    } else {
        None
    }
}

/// Why the fields of a credential are refused, if they are.
pub open spec fn credential_refusal(
    website: Seq<char>,
    username: Seq<char>,
    password: Seq<char>,
) -> Option<Seq<char>> {
    if blank(website) {
        Some("Website cannot be empty"@)
    } else if blank(username) {
        Some("Username cannot be empty"@)
    } else if blank(password) {
        Some("Password cannot be empty"@)
    } else {
        None
    }
}

/// The answer to a request that nobody signed in may make: the session is
/// looked at first, then the fields.
pub open spec fn admitted_signed_out(state: Option<Seq<char>>, refusal: Option<Seq<char>>) -> Result<
    (),
    Seq<char>,
> {
    match unauthenticated(state) {
        Err(why) => Err(why),
        Ok(()) => match refusal {
            Some(why) => Err(why),
            None => Ok(()),
        },
    }
}

/// The answer to a request that only a signed-in user may make: the session
/// is looked at first, then the fields; the answer names the user.
pub open spec fn admitted_signed_in(state: Option<Seq<char>>, refusal: Option<Seq<char>>) -> Result<
    Seq<char>,
    Seq<char>,
> {
    match authenticated(state) {
        Err(why) => Err(why),
        Ok(user_id) => match refusal {
            Some(why) => Err(why),
            None => Ok(user_id),
        },
    }
}

/// The wording of a cryptographic failure for the user: what was being
/// done, a colon, and the failure's full text.
pub open spec fn worded(doing: Seq<char>, failure: Failure) -> Seq<char> {
    doing + ": "@ + failure.message()
}

/// The answer of a login, given the stored hash of the user, if there is
/// one, and what checking the password against it gave.
pub open spec fn login_answer(found: bool, checked: Result<bool, Failure>) -> Result<(), Seq<char>> {
    if !found {
        Err("Username does not exist"@)
    } else {
        match checked {
            Err(failure) => Err(worded("Password verification error"@, failure)),
            Ok(false) => Err("Password does not match!"@),
            Ok(true) => Ok(()),
        }
    }
}

/// Whether an outcome is one that encrypting one field of a credential may
/// have, and how it goes on where the field is encrypted: a refusal of the
/// inputs is worded with the field; so is a failure to draw a nonce or to
/// seal; otherwise the rest decides.
pub open spec fn field_allows(
    doing: Seq<char>,
    accepted: Result<Seq<u8>, Failure>,
    outcome: Result<(Seq<char>, Seq<char>), Seq<char>>,
    rest: bool,
) -> bool {
    match accepted {
        Err(failure) => outcome == Err::<(Seq<char>, Seq<char>), Seq<char>>(
            worded(doing, failure),
        ),
        Ok(_) => {
            ||| outcome matches Err(why) && exists|failure: Failure|
                sealing_failure(failure) && why == #[trigger] worded(doing, failure)
            ||| rest
        },
    }
}

/// Whether an outcome is one that encrypting a credential may have. The
/// user name comes first: where it is refused, that is the outcome. Where it
/// is encrypted, the password decides in the same way. Only where both are
/// encrypted does the outcome hold two fields.
pub open spec fn credential_allows(
    username: Seq<char>,
    password: Seq<char>,
    user_id: Seq<char>,
    encryption_key: Seq<char>,
    outcome: Result<(Seq<char>, Seq<char>), Seq<char>>,
) -> bool {
    field_allows(
        "Failed to encrypt username"@,
        encryption_key_for(username, user_id, encryption_key),
        outcome,
        field_allows(
            "Failed to encrypt password"@,
            encryption_key_for(password, user_id, encryption_key),
            outcome,
            outcome is Ok,
        ),
    )
}

/// The mathematical value of a result that carries two fields on success.
pub open spec fn fields_outcome(result: Result<(String, String), String>) -> Result<
    (Seq<char>, Seq<char>),
    Seq<char>,
> {
    match result {
        Ok(fields) => Ok((fields.0@, fields.1@)),
        Err(why) => Err(why@),
    }
}

/// The first record of a page: pages are counted from one.
pub open spec fn offset_of_page(page: int) -> int {
    (page - 1) * PAGE_SIZE
}

/// The number of pages that a number of records fills: the count divided by
/// the page size, rounded up.
pub open spec fn pages_needed(total_count: int) -> int {
    if total_count >= 0 {
        (total_count + PAGE_SIZE - 1) / (PAGE_SIZE as int)
    } else {
        -((-total_count) / (PAGE_SIZE as int))
    }
}

/// A number brought into the range of `i32`.
pub open spec fn clamped(n: int) -> int {
    if n > i32::MAX {
        i32::MAX as int
    } else if n < i32::MIN {
        i32::MIN as int
    } else {
        n
    }
}

/// What is shown for a field: its text, or the placeholder where it does
/// not decrypt.
pub open spec fn shown(outcome: Result<Seq<char>, Failure>, placeholder: Seq<char>) -> Seq<char> {
    match outcome {
        Ok(text) => text,
        Err(_) => placeholder,
    }
}

/// Whether an optional text is there and not empty.
pub open spec fn filled(field: Option<Seq<char>>) -> bool {
    field matches Some(text) && text.len() > 0
}

/// The mathematical value of an optional borrowed text.
pub open spec fn borrowed_text(field: Option<&str>) -> Option<Seq<char>> {
    match field {
        Some(text) => Some(text@),
        None => None,
    }
}

/// A list of `count` question marks, separated by commas.
pub open spec fn marks(count: nat) -> Seq<char>
    decreases count,
{
    if count == 0 {
        Seq::empty()
    } else if count == 1 {
        "?"@
    } else {
        marks((count - 1) as nat) + ",?"@
    }
}

/// The condition that narrows a selection to `count` chosen records: empty
/// where none is chosen, which selects all.
pub open spec fn chosen_filter(count: nat) -> Seq<char> {
    if count == 0 {
        Seq::empty()
    } else {
        "AND id IN ("@ + marks(count) + ")"@
    }
}

/// The order of two byte strings, byte by byte, a shorter string before
/// every longer one that starts with it: -1, 0 or 1 for before, same and
/// after.
pub open spec fn byte_order(left: Seq<u8>, right: Seq<u8>) -> int
    decreases left.len(),
{
    if left.len() == 0 && right.len() == 0 {
        0
    } else if left.len() == 0 {
        -1
    } else if right.len() == 0 {
        1
    } else if left[0] < right[0] {
        -1
    } else if left[0] > right[0] {
        1
    } else {
        byte_order(left.drop_first(), right.drop_first())
    }
}

/// The order of two records in the result of a search: a record whose user
/// name matched comes before one that matched elsewhere; among records of
/// one sort, the one updated later comes first, by the text of its date.
pub open spec fn listing_order(
    left_matched: bool,
    left_updated: Seq<char>,
    right_matched: bool,
    right_updated: Seq<char>,
) -> int {
    if left_matched && !right_matched {
        -1
    } else if !left_matched && right_matched {
        1
    } else {
        byte_order(encode_utf8(right_updated), encode_utf8(left_updated))
    }
}

/// Whether a user name matches a search term: the term occurs in the name,
/// both taken in lowercase.
pub open spec fn username_matched(username: Seq<char>, search_term: Seq<char>) -> bool {
    occurs_in(lowercase_of(search_term), lowercase_of(username))
}

/// The label of the sort of a match in the result of a search.
pub open spec fn match_label(username_matched: bool) -> Seq<char> {
    if username_matched {
        "username"@
    } else {
        "other"@
    }
}

/// Whether a character is white space.
pub fn white_space(c: char) -> (answer: bool)
    ensures
        answer == is_white_space(c),
{
    let code = c as u32;
    (0x09 <= code && code <= 0x0D) || code == 0x20 || code == 0x85 || code == 0xA0 || code
        == 0x1680 || (0x2000 <= code && code <= 0x200A) || code == 0x2028 || code == 0x2029
        || code == 0x202F || code == 0x205F || code == 0x3000
}

/// Whether a text holds nothing but white space, as an empty text does.
pub fn is_blank(text: &str) -> (answer: bool)
    ensures
        answer == blank(text@),
{
    let len = text.unicode_len();
    let mut i: usize = 0;
    while i < len
        invariant
            len == text@.len(),
            i <= len,
            forall|j: int| 0 <= j < i ==> is_white_space(#[trigger] text@[j]),
        decreases len - i,
    {
        if !white_space(text.get_char(i)) {
            return false;
        }
        i += 1;
    }
    true
}

/// Whether two texts are the same.
pub fn same_text(left: &str, right: &str) -> (answer: bool)
    ensures
        answer == (left@ == right@),
{
    let a = left.as_bytes();
    let b = right.as_bytes();
    if a.len() != b.len() {
        return false;
    }
    let mut i: usize = 0;
    while i < a.len()
        invariant
            a@ == encode_utf8(left@),
            b@ == encode_utf8(right@),
            a@.len() == b@.len(),
            i <= a@.len(),
            forall|j: int| 0 <= j < i ==> a@[j] == b@[j],
        decreases a@.len() - i,
    {
        if a[i] != b[i] {
            return false;
        }
        i += 1;
    }
    proof {
        assert(a@ =~= b@);
        encode_utf8_decode_utf8(left@);
        encode_utf8_decode_utf8(right@);
    }
    true
}

/// Checks the fields of a registration.
pub fn check_registration(username: &str, password: &str, confirm_password: &str) -> (result:
    Result<(), String>)
    ensures
        unit_outcome(result) == admitted_signed_out(
            None,
            registration_refusal(username@, password@, confirm_password@),
        ),
{
    if is_blank(username) {
        return Err(String::from_str("Username cannot be empty"));
    }
    if is_blank(password) {
        return Err(String::from_str("Password cannot be empty"));
    }
    if !same_text(password, confirm_password) {
        return Err(String::from_str("Passwords do not match"));
    }
    Ok(())
}

/// Checks the fields of a login.
pub fn check_login(username: &str, password: &str) -> (result: Result<(), String>)
    ensures
        unit_outcome(result) == admitted_signed_out(None, login_refusal(username@, password@)),
{
    if is_blank(username) {
        return Err(String::from_str("Username cannot be empty"));
    }
    if is_blank(password) {
        return Err(String::from_str("Password cannot be empty"));
    }
    Ok(())
}

/// Checks the fields of a credential.
pub fn check_credential(website: &str, username: &str, password: &str) -> (result: Result<
    (),
    String,
>)
    ensures
        unit_outcome(result) == admitted_signed_out(
            None,
            credential_refusal(website@, username@, password@),
        ),
{
    if is_blank(website) {
        return Err(String::from_str("Website cannot be empty"));
    }
    if is_blank(username) {
        return Err(String::from_str("Username cannot be empty"));
    }
    if is_blank(password) {
        return Err(String::from_str("Password cannot be empty"));
    }
    Ok(())
}

/// Decides whether a registration may go on to the storage: nobody may be
/// signed in, and the fields must be acceptable.
pub fn admit_registration(
    state: &UserState,
    username: &str,
    password: &str,
    confirm_password: &str,
) -> (result: Result<(), String>)
    ensures
        unit_outcome(result) == admitted_signed_out(
            state@,
            registration_refusal(username@, password@, confirm_password@),
        ),
{
    match require_no_authentication(state) {
        Err(why) => Err(why),
        Ok(()) => check_registration(username, password, confirm_password),
    }
}

/// Decides whether a login may go on to the storage: nobody may be signed
/// in, and the fields must be filled in.
pub fn admit_login(state: &UserState, username: &str, password: &str) -> (result: Result<
    (),
    String,
>)
    ensures
        unit_outcome(result) == admitted_signed_out(state@, login_refusal(username@, password@)),
{
    match require_no_authentication(state) {
        Err(why) => Err(why),
        Ok(()) => check_login(username, password),
    }
}

/// Decides whether a credential may be stored for the signed-in user, and
/// names that user.
pub fn admit_credential(state: &UserState, website: &str, username: &str, password: &str) -> (result:
    Result<String, String>)
    ensures
        entry_outcome(result) == admitted_signed_in(
            state@,
            credential_refusal(website@, username@, password@),
        ),
{
    let user_id = match require_authentication(state) {
        Ok(user_id) => user_id,
        Err(why) => {
            return Err(why);
        },
    };
    match check_credential(website, username, password) {
        Err(why) => Err(why),
        Ok(()) => Ok(user_id),
    }
}

/// Words a cryptographic failure for the user: what was being done, a
/// colon, and the failure's full text.
pub fn user_message(doing: &str, error: &CryptoError) -> (text: String)
    ensures
        text@ == worded(doing@, error@),
{
    let message = error.message();
    String::from_str(doing).concat(": ").concat(message.as_str())
}

/// Turns what the storage found for a user name, and what checking the
/// password gave, into the answer of a login.
pub fn login_from_check(found: bool, checked: Result<bool, CryptoError>) -> (result: Result<
    (),
    String,
>)
    ensures
        unit_outcome(result) == login_answer(found, crate::hashing::check_outcome(checked)),
{
    if !found {
        return Err(String::from_str("Username does not exist"));
    }
    match checked {
        Err(error) => Err(user_message("Password verification error", &error)),
        Ok(false) => Err(String::from_str("Password does not match!")),
        Ok(true) => Ok(()),
    }
}

/// Decides a login against the stored hash that the storage found for the
/// user name, if it found one.
pub fn check_login_password(password: &str, stored_hash: Option<&str>) -> (result: Result<
    (),
    String,
>)
    ensures
        stored_hash is None ==> unit_outcome(result) == login_answer(false, Ok(false)),
        stored_hash matches Some(hash) ==> unit_outcome(result) == login_answer(
            true,
            verified(password@, hash@),
        ),
{
    match stored_hash {
        None => login_from_check(false, Ok(false)),
        Some(hash) => login_from_check(true, verify_password(password, hash)),
    }
}

/// The number of the first record of a page, counted from zero.
pub fn page_offset(page: i32) -> (offset: i64)
    ensures
        offset == offset_of_page(page as int),
{
    let page: i64 = page as i64;
    (page - 1) * 6
}

/// The number of pages that `total_count` records fill, within `i32`.
pub fn total_pages(total_count: i64) -> (pages: i32)
    ensures
        pages == clamped(pages_needed(total_count as int)),
{
    if total_count >= 0 {
        let count: u64 = total_count as u64;
        let whole: u64 = count / 6;
        let pages: u64 = if count % 6 == 0 {
            whole
        } else {
            whole + 1
        };
        if pages > 0x7FFF_FFFF {
            i32::MAX
        } else {
            pages as i32
        }
    } else {
        let size: u64 = (-(total_count + 1)) as u64 + 1;
        let whole: u64 = size / 6;
        if whole > 0x8000_0000 {
            i32::MIN
        } else {
            let below: i64 = whole as i64;
            (-below) as i32
        }
    }
}

/// Decrypts a field for showing: where it does not decrypt, the placeholder
/// is shown in its place, so that one damaged field does not fail a listing.
pub fn decrypt_or(encrypted_data: &str, encryption_key: &str, placeholder: &str) -> (text: String)
    ensures
        text@ == shown(decrypted(encrypted_data@, encryption_key@), placeholder@),
{
    match decrypt(encrypted_data, encryption_key) {
        Ok(text) => text,
        Err(_) => String::from_str(placeholder),
    }
}

/// Whether a record can be taken in from outside: its website, user name
/// and password must each be there and not empty.
pub fn is_importable(website: Option<&str>, username: Option<&str>, password: Option<&str>) -> (answer:
    bool)
    ensures
        answer == (filled(borrowed_text(website)) && filled(borrowed_text(username)) && filled(
            borrowed_text(password),
        )),
{
    match (website, username, password) {
        (Some(w), Some(u), Some(p)) => !w.is_empty() && !u.is_empty() && !p.is_empty(),
        _ => false,
    }
}

/// Encrypts the user name and the password of a credential for the given
/// owner. The user name is encrypted first, and each failure is worded with
/// the field it belongs to. Both fields that come back decrypt, under the
/// same key, to what was given.
pub fn encrypt_credential(username: &str, password: &str, user_id: &str, encryption_key: &str) -> (result:
    Result<(String, String), String>)
    ensures
        credential_allows(
            username@,
            password@,
            user_id@,
            encryption_key@,
            fields_outcome(result),
        ),
        result matches Ok(
            fields,
        ) ==> {
            &&& decrypted(fields.0@, encryption_key@) matches Ok(plain) && plain == username@
            &&& decrypted(fields.1@, encryption_key@) matches Ok(plain) && plain == password@
        },
{
    let encrypted_username = match encrypt(username, user_id, encryption_key) {
        Ok(field) => field,
        Err(error) => {
            proof {
                if encryption_key_for(username@, user_id@, encryption_key@) is Ok {
                    lemma_accepted_inputs_fail_only_in_sealing(
                        username@,
                        user_id@,
                        encryption_key@,
                        error@,
                    );
                }
            }
            return Err(user_message("Failed to encrypt username", &error));
        },
    };
    let encrypted_password = match encrypt(password, user_id, encryption_key) {
        Ok(field) => field,
        Err(error) => {
            proof {
                if encryption_key_for(password@, user_id@, encryption_key@) is Ok {
                    lemma_accepted_inputs_fail_only_in_sealing(
                        password@,
                        user_id@,
                        encryption_key@,
                        error@,
                    );
                }
            }
            return Err(user_message("Failed to encrypt password", &error));
        },
    };
    Ok((encrypted_username, encrypted_password))
}

/// The condition that narrows a selection to `count` chosen records, with
/// one question mark for each: empty where none is chosen.
pub fn id_filter(count: usize) -> (text: String)
    ensures
        text@ == chosen_filter(count as nat),
{
    if count == 0 {
        return String::new();
    }
    let mut list = String::from_str("?");
    let mut i: usize = 1;
    while i < count
        invariant
            1 <= i <= count,
            list@ == marks(i as nat),
        decreases count - i,
    {
        list = list.concat(",?");
        i += 1;
    }
    String::from_str("AND id IN (").concat(list.as_str()).concat(")")
}

/// Compares two byte strings byte by byte: -1, 0 or 1 for before, same and
/// after.
pub fn compare_bytes(left: &[u8], right: &[u8]) -> (order: i8)
    ensures
        order == byte_order(left@, right@),
{
    let mut i: usize = 0;
    proof {
        assert(left@.skip(0) =~= left@);
        assert(right@.skip(0) =~= right@);
    }
    while i < left.len() && i < right.len()
        invariant
            i <= left@.len(),
            i <= right@.len(),
            byte_order(left@, right@) == byte_order(left@.skip(i as int), right@.skip(i as int)),
        decreases left@.len() - i,
    {
        if left[i] < right[i] {
            return -1;
        }
        if left[i] > right[i] {
            return 1;
        }
        proof {
            assert(left@.skip(i as int).drop_first() =~= left@.skip(i + 1));
            assert(right@.skip(i as int).drop_first() =~= right@.skip(i + 1));
        }
        i += 1;
    }
    if i < right.len() {
        -1
    } else if i < left.len() {
        1
    } else {
        0
    }
}

/// Compares two records of the result of a search: -1 where the left one
/// is listed first, 1 where the right one is, 0 where neither has to be.
pub fn compare_listed(
    left_matched: bool,
    left_updated: &str,
    right_matched: bool,
    right_updated: &str,
) -> (order: i8)
    ensures
        order == listing_order(left_matched, left_updated@, right_matched, right_updated@),
{
    if left_matched && !right_matched {
        -1
    } else if !left_matched && right_matched {
        1
    } else {
        compare_bytes(right_updated.as_bytes(), left_updated.as_bytes())
    }
}

/// Whether a user name matches a search term, whatever the case of either.
pub fn username_matches(username: &str, search_term: &str) -> (answer: bool)
    ensures
        answer == username_matched(username@, search_term@),
{
    let name = lowercase(username);
    let term = lowercase(search_term);
    contains_text(name.as_str(), term.as_str())
}

/// The label of the sort of a match: `"username"` or `"other"`.
pub fn match_type(username_matched: bool) -> (label: &'static str)
    ensures
        label@ == match_label(username_matched),
{
    if username_matched {
        "username"
    } else {
        "other"
    }
}

} // verus!
